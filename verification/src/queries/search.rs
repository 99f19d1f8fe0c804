//! Search over the index: by similarity, by full text, by both, and by
//! regular expression; also over past prompts and standing mandates.
use std::borrow::Cow;
use vstd::prelude::*;

use crate::embedding::{
    dimension_refusal, require_dimension, tune, tuned, TunedQuery, TunedView, EMBEDDING_COLUMN,
    EMBEDDING_DIM,
};
use crate::limits::{clamp, clamped};
use crate::meaning::{lemma_within, opens, says, takes};
use crate::protocol::{statement_views, ProtocolError};
use crate::queries::dedup::{dedup_clause, worktree_dedup_clause, DEDUP_5};
use crate::queries::texts::dedup::dedup_5_text;
use crate::queries::texts::search::{
    grep_chunks_head_text, grep_chunks_middle_text, grep_chunks_tail_text, grep_operator_text,
    law_fused_search_keeps_what_is_asked_for, law_grep_keeps_what_is_asked_for,
    law_semantic_search_keeps_what_is_asked_for, law_text_search_keeps_what_is_asked_for,
    recall_prompts_text, search_mandates_fts_text, search_mandates_semantic_text,
};
use crate::search_pattern::{
    cow_text, glob_to_like, opt_like, translate_pcre_boundaries, translated,
};
use crate::statement::{executes, fetches_all, opt_str, BindView, Statement, StatementView};
use crate::text::{decimal, decimal_text, join, joined};

verus! {

/// A file with its best matching text.
#[derive(Debug, Clone)]
pub struct GrepResult {
    pub path: String,
    pub relative_path: String,
    pub language: String,
    pub content: Option<String>,
}

/// A chunk that matches a pattern.
#[derive(Debug, Clone)]
pub struct GrepChunkResult {
    pub project_name: String,
    pub path: String,
    pub relative_path: String,
    pub language: String,
    pub chunk_index: i32,
    pub start_line: i32,
    pub end_line: i32,
    pub content: String,
}

pub const SEMANTIC_BY_LANGUAGE_AND_PROJECT: &'static str = "SELECT f.path, f.relative_path, f.language,
                        c.content as chunk_content, c.start_line, c.end_line,
                        1 - (c.embedding_v2 <=> $1) as score,
                        p.name as project_name
                 FROM file_chunks c
                 JOIN indexed_files f ON f.id = c.file_id
                 JOIN projects p ON p.id = f.project_id
                 WHERE f.language = $3 AND p.name = $4
                   AND c.embedding_v2 IS NOT NULL
                   AND ";

pub const SEMANTIC_BY_LANGUAGE: &'static str = "SELECT f.path, f.relative_path, f.language,
                        c.content as chunk_content, c.start_line, c.end_line,
                        1 - (c.embedding_v2 <=> $1) as score,
                        p.name as project_name
                 FROM file_chunks c
                 JOIN indexed_files f ON f.id = c.file_id
                 JOIN projects p ON p.id = f.project_id
                 WHERE f.language = $3
                   AND c.embedding_v2 IS NOT NULL
                   AND ";

pub const SEMANTIC_BY_PROJECT: &'static str = "SELECT f.path, f.relative_path, f.language,
                        c.content as chunk_content, c.start_line, c.end_line,
                        1 - (c.embedding_v2 <=> $1) as score,
                        p.name as project_name
                 FROM file_chunks c
                 JOIN indexed_files f ON f.id = c.file_id
                 JOIN projects p ON p.id = f.project_id
                 WHERE p.name = $3
                   AND c.embedding_v2 IS NOT NULL
                   AND ";

pub const SEMANTIC_OVERALL: &'static str = "SELECT f.path, f.relative_path, f.language,
                        c.content as chunk_content, c.start_line, c.end_line,
                        1 - (c.embedding_v2 <=> $1) as score,
                        p.name as project_name
                 FROM file_chunks c
                 JOIN indexed_files f ON f.id = c.file_id
                 JOIN projects p ON p.id = f.project_id
                 WHERE c.embedding_v2 IS NOT NULL
                   AND ";

pub const SEMANTIC_TAIL: &'static str = "
                 ORDER BY c.embedding_v2 <=> $1
                 LIMIT $2";

/// The query for the chunks closest to the embedding that the caller
/// supplies as value 0. The filters that are given take the third and fourth
/// argument; the flag for worktrees follows the last of them.
pub open spec fn semantic_query(
    limit: i32,
    language: Option<Seq<char>>,
    project: Option<Seq<char>>,
    dedupe: bool,
) -> StatementView {
    match (language, project) {
        (Some(l), Some(p)) => fetches_all(
            joined(SEMANTIC_BY_LANGUAGE_AND_PROJECT@, dedup_clause(5), SEMANTIC_TAIL@),
            seq![
                BindView::Supplied(0),
                BindView::Int(limit),
                BindView::Text(l),
                BindView::Text(p),
                BindView::Bool(dedupe),
            ],
        ),
        (Some(l), None) => fetches_all(
            joined(SEMANTIC_BY_LANGUAGE@, dedup_clause(4), SEMANTIC_TAIL@),
            seq![
                BindView::Supplied(0),
                BindView::Int(limit),
                BindView::Text(l),
                BindView::Bool(dedupe),
            ],
        ),
        (None, Some(p)) => fetches_all(
            joined(SEMANTIC_BY_PROJECT@, dedup_clause(4), SEMANTIC_TAIL@),
            seq![
                BindView::Supplied(0),
                BindView::Int(limit),
                BindView::Text(p),
                BindView::Bool(dedupe),
            ],
        ),
        (None, None) => fetches_all(
            joined(SEMANTIC_OVERALL@, dedup_clause(3), SEMANTIC_TAIL@),
            seq![BindView::Supplied(0), BindView::Int(limit), BindView::Bool(dedupe)],
        ),
    }
}

fn semantic_statement(
    limit: i32,
    language: Option<&str>,
    project: Option<&str>,
    dedupe_worktrees: bool,
) -> (st: Statement)
    ensures
        st@ == semantic_query(limit, opt_str(language), opt_str(project), dedupe_worktrees),
        opens(st@.sql, "SELECT"@),
        takes(st@, "c.embedding_v2 <=> "@, BindView::Supplied(0)),
        language matches Some(l) ==> takes(st@, "f.language = "@, BindView::Text(l@)),
        project matches Some(p) ==> takes(st@, "p.name = "@, BindView::Text(p@)),
        takes(st@, "(NOT "@, BindView::Bool(dedupe_worktrees)),
        takes(st@, "LIMIT "@, BindView::Int(limit)),
{
    proof {
        law_semantic_search_keeps_what_is_asked_for(
            limit,
            opt_str(language),
            opt_str(project),
            dedupe_worktrees,
        );
    }
    let st = match (language, project) {
        (Some(l), Some(p)) => {
            let sql = join(
                SEMANTIC_BY_LANGUAGE_AND_PROJECT,
                worktree_dedup_clause(5),
                SEMANTIC_TAIL,
            );
            Statement::all(sql.as_str())
                .supplied(0)
                .int4(limit)
                .text(l)
                .text(p)
                .flag(dedupe_worktrees)
        },
        (Some(l), None) => {
            let sql = join(SEMANTIC_BY_LANGUAGE, worktree_dedup_clause(4), SEMANTIC_TAIL);
            Statement::all(sql.as_str()).supplied(0).int4(limit).text(l).flag(dedupe_worktrees)
        },
        (None, Some(p)) => {
            let sql = join(SEMANTIC_BY_PROJECT, worktree_dedup_clause(4), SEMANTIC_TAIL);
            Statement::all(sql.as_str()).supplied(0).int4(limit).text(p).flag(dedupe_worktrees)
        },
        (None, None) => {
            let sql = join(SEMANTIC_OVERALL, worktree_dedup_clause(3), SEMANTIC_TAIL);
            Statement::all(sql.as_str()).supplied(0).int4(limit).flag(dedupe_worktrees)
        },
    };
    proof {
        assert(st@ == semantic_query(
            limit,
            opt_str(language),
            opt_str(project),
            dedupe_worktrees,
        ));
    }
    st
}

pub const SEMANTIC_SEARCH_REFUSAL: &'static str =
    "semantic_search: expected a 1024-dimension BGE-M3 query embedding, got ";

/// Chunks by similarity to a query, optionally of one language or project.
/// The caller supplies value 0, the embedding, of dimension `dim`.
pub fn semantic_search(
    dim: usize,
    limit: i32,
    language: Option<&str>,
    project: Option<&str>,
    ef_search: i32,
    dedupe_worktrees: bool,
) -> (r: Result<TunedQuery, ProtocolError>)
    ensures
        r is Ok <==> dim == EMBEDDING_DIM,
        r matches Err(e) ==> e@ == dimension_refusal(SEMANTIC_SEARCH_REFUSAL@, dim),
        r matches Ok(q) ==> q@ == tuned(
            ef_search,
            semantic_query(limit, opt_str(language), opt_str(project), dedupe_worktrees),
        ),
{
    match require_dimension(dim, SEMANTIC_SEARCH_REFUSAL) {
        Ok(_) => {},
        Err(e) => return Err(e),
    }
    Ok(tune(ef_search, semantic_statement(limit, language, project, dedupe_worktrees)))
}

pub const HYBRID_LEGS_1: &'static str = "dense AS (
            SELECT chunk_id, ROW_NUMBER() OVER (ORDER BY dist) AS rnk FROM (
                SELECT c.id AS chunk_id, (c.";

pub const HYBRID_LEGS_2: &'static str = " <=> $1) AS dist
                FROM file_chunks c
                JOIN indexed_files f ON f.id = c.file_id
                JOIN projects p ON p.id = f.project_id
                WHERE c.";

pub const HYBRID_LEGS_3: &'static str = " IS NOT NULL
                  AND ($4::text IS NULL OR f.language = $4)
                  AND ($5::text IS NULL OR p.name = $5)
                ORDER BY c.";

pub const HYBRID_LEGS_4: &'static str = " <=> $1
                LIMIT $3
            ) dd
        ),
        lexical AS (
            SELECT chunk_id, ROW_NUMBER() OVER (ORDER BY rank DESC) AS rnk FROM (
                SELECT c.id AS chunk_id,
                       ts_rank(c.content_tsv, plainto_tsquery('english', $2)) AS rank
                FROM file_chunks c
                JOIN indexed_files f ON f.id = c.file_id
                JOIN projects p ON p.id = f.project_id
                WHERE c.content_tsv @@ plainto_tsquery('english', $2)
                  AND ($4::text IS NULL OR f.language = $4)
                  AND ($5::text IS NULL OR p.name = $5)
                ORDER BY rank DESC
                LIMIT $3
            ) ll
        )";

pub const HYBRID_FUSE_THREE: &'static str = ",
            sparse AS (
                SELECT chunk_id, ROW_NUMBER() OVER (ORDER BY dist) AS rnk FROM (
                    SELECT c.id AS chunk_id, (c.sparse_v2 <#> $7) AS dist
                    FROM file_chunks c
                    JOIN indexed_files f ON f.id = c.file_id
                    JOIN projects p ON p.id = f.project_id
                    WHERE c.sparse_v2 IS NOT NULL
                      AND ($4::text IS NULL OR f.language = $4)
                      AND ($5::text IS NULL OR p.name = $5)
                    ORDER BY c.sparse_v2 <#> $7
                    LIMIT $3
                ) ss
            ),
            fused AS (
                SELECT COALESCE(d.chunk_id, l.chunk_id, s.chunk_id) AS chunk_id,
                       (COALESCE(1.0 / (60.0 + d.rnk), 0.0)
                     + COALESCE(1.0 / (60.0 + l.rnk), 0.0)
                     + COALESCE(1.0 / (60.0 + s.rnk), 0.0))::float8 AS rrf
                FROM dense d
                FULL OUTER JOIN lexical l ON d.chunk_id = l.chunk_id
                FULL OUTER JOIN sparse s ON COALESCE(d.chunk_id, l.chunk_id) = s.chunk_id
            )
            ";

pub const HYBRID_FUSE_TWO: &'static str = ",
            fused AS (
                SELECT COALESCE(d.chunk_id, l.chunk_id) AS chunk_id,
                       (COALESCE(1.0 / (60.0 + d.rnk), 0.0)
                     + COALESCE(1.0 / (60.0 + l.rnk), 0.0))::float8 AS rrf
                FROM dense d
                FULL OUTER JOIN lexical l ON d.chunk_id = l.chunk_id
            )
            ";

pub const HYBRID_RANKING: &'static str = "SELECT f.path, f.relative_path, f.language,
               c.content AS chunk_content, c.start_line, c.end_line,
               fused.rrf AS score,
               p.name AS project_name,
               c.id AS chunk_id
        FROM fused
        JOIN file_chunks c ON c.id = fused.chunk_id
        JOIN indexed_files f ON f.id = c.file_id
        JOIN projects p ON p.id = f.project_id
        ORDER BY fused.rrf DESC
        LIMIT $6";

/// The legs over the embedding column `col` and over full text.
pub open spec fn hybrid_legs(col: Seq<char>) -> Seq<char> {
    HYBRID_LEGS_1@ + col + HYBRID_LEGS_2@ + col + HYBRID_LEGS_3@ + col + HYBRID_LEGS_4@
}

/// The query that fuses the ranks of two or, with the sparse leg, three
/// searches.
pub open spec fn hybrid_sql(col: Seq<char>, with_sparse: bool) -> Seq<char> {
    "WITH "@ + hybrid_legs(col) + (if with_sparse {
        HYBRID_FUSE_THREE@
    } else {
        HYBRID_FUSE_TWO@
    }) + HYBRID_RANKING@
}

/// The query that fuses the ranks of two or, with the sparse leg, three
/// searches. The fused rank is cast to a double, which it is read as.
pub fn hybrid_search_sql(col: &str, with_sparse: bool) -> (r: String)
    ensures
        r@ == hybrid_sql(col@, with_sparse),
{
    let mut legs = String::from_str(HYBRID_LEGS_1);
    legs.append(col);
    legs.append(HYBRID_LEGS_2);
    legs.append(col);
    legs.append(HYBRID_LEGS_3);
    legs.append(col);
    legs.append(HYBRID_LEGS_4);
    let mut m = String::from_str("WITH ");
    m.append(legs.as_str());
    if with_sparse {
        m.append(HYBRID_FUSE_THREE);
    } else {
        m.append(HYBRID_FUSE_TWO);
    }
    m.append(HYBRID_RANKING);
    m
}

pub const HYBRID_SEARCH_REFUSAL: &'static str =
    "hybrid_search_chunks: expected a 1024-dimension BGE-M3 query embedding, got ";

/// The arguments of a fused search: those of two legs, and with a sparse leg
/// one more.
pub open spec fn hybrid_binds(
    query_text: Seq<char>,
    limit: i32,
    candidates: i32,
    language: Option<Seq<char>>,
    project: Option<Seq<char>>,
    with_sparse: bool,
) -> Seq<BindView> {
    let two = seq![
        BindView::Supplied(0),
        BindView::Text(query_text),
        BindView::Int(candidates),
        BindView::OptText(language),
        BindView::OptText(project),
        BindView::Int(limit),
    ];
    if with_sparse {
        two.push(BindView::Supplied(1))
    } else {
        two
    }
}

/// Chunks by the fused rank of similarity, full text and, where the query has
/// a sparse embedding, the sparse index. The caller supplies value 0, the
/// embedding, of dimension `dim`, and then value 1, the sparse embedding.
pub fn hybrid_search_chunks(
    query_text: &str,
    dim: usize,
    limit: i32,
    candidates: i32,
    language: Option<&str>,
    project: Option<&str>,
    ef_search: i32,
    with_sparse: bool,
) -> (r: Result<TunedQuery, ProtocolError>)
    ensures
        r is Ok <==> dim == EMBEDDING_DIM,
        r matches Err(e) ==> e@ == dimension_refusal(HYBRID_SEARCH_REFUSAL@, dim),
        r matches Ok(q) ==> q@ == tuned(
            ef_search,
            fetches_all(
                hybrid_sql(EMBEDDING_COLUMN@, with_sparse),
                hybrid_binds(
                    query_text@,
                    limit,
                    candidates,
                    opt_str(language),
                    opt_str(project),
                    with_sparse,
                ),
            ),
        ),
        r matches Ok(q) ==> says(q@.query.sql, "ORDER BY dist) AS rnk FROM ("@),
        r matches Ok(q) ==> takes(q@.query, "<=> "@, BindView::Supplied(0)),
        r matches Ok(q) ==> says(q@.query.sql, "WHERE c."@),
        r matches Ok(q) ==> says(q@.query.sql, "FROM file_chunks"@),
        r matches Ok(q) ==> takes(q@.query, "f.language = "@, BindView::OptText(opt_str(language))),
        r matches Ok(q) ==> takes(q@.query, "p.name = "@, BindView::OptText(opt_str(project))),
        r matches Ok(q) ==> says(q@.query.sql, "ORDER BY c."@),
        r matches Ok(q) ==> takes(
            q@.query,
            "ts_rank(c.content_tsv, plainto_tsquery('english', "@,
            BindView::Text(query_text@),
        ),
        r matches Ok(q) ==> takes(q@.query, "LIMIT "@, BindView::Int(candidates)),
        r matches Ok(q) ==> says(q@.query.sql, "ORDER BY rank DESC) AS rnk FROM ("@),
        r matches Ok(q) ==> says(q@.query.sql, "ORDER BY rank DESC"@),
        r matches Ok(q) ==> takes(q@.query, "LIMIT "@, BindView::Int(limit)),
        r matches Ok(q) ==> says(q@.query.sql, "ORDER BY fused.rrf DESC"@),
        r matches Ok(q) ==> says(q@.query.sql, "FROM fused"@),
        r matches Ok(q) ==> (with_sparse ==> takes(q@.query, "c.sparse_v2 <#> "@, BindView::Supplied(1))),
{
    match require_dimension(dim, HYBRID_SEARCH_REFUSAL) {
        Ok(_) => {},
        Err(e) => return Err(e),
    }
    let sql = hybrid_search_sql(EMBEDDING_COLUMN, with_sparse);
    let two = Statement::all(sql.as_str())
        .supplied(0)
        .text(query_text)
        .int4(candidates)
        .opt_text(language)
        .opt_text(project)
        .int4(limit);
    let query = if with_sparse {
        two.supplied(1)
    } else {
        two
    };
    assert(query@ =~= fetches_all(
        hybrid_sql(EMBEDDING_COLUMN@, with_sparse),
        hybrid_binds(
            query_text@,
            limit,
            candidates,
            opt_str(language),
            opt_str(project),
            with_sparse,
        ),
    ));
    proof {
        law_fused_search_keeps_what_is_asked_for(
            EMBEDDING_COLUMN@,
            query_text@,
            limit,
            candidates,
            opt_str(language),
            opt_str(project),
            with_sparse,
            query@,
        );
    }
    Ok(tune(ef_search, query))
}

pub const TEXT_SEARCH_HEAD: &'static str = "SELECT path, relative_path, language, content, rank FROM (
            SELECT DISTINCT ON (f.id)
                f.path,
                f.relative_path,
                f.language,
                c.content,
                ts_rank(c.content_tsv, plainto_tsquery('english', $1)) AS rank
            FROM file_chunks c
            JOIN indexed_files f ON c.file_id = COALESCE(f.duplicate_of_file_id, f.id)
            LEFT JOIN projects p ON p.id = f.project_id
            WHERE c.content_tsv @@ plainto_tsquery('english', $1)
              AND ($3::text IS NULL OR f.language = $3)
              AND ($4::text IS NULL OR p.name = $4)
              AND ";

pub const TEXT_SEARCH_TAIL: &'static str = "
            ORDER BY f.id, rank DESC
         ) per_file
         ORDER BY rank DESC
         LIMIT $2";

/// The query for files by full text, each with its best chunk.
pub open spec fn text_query(
    query: Seq<char>,
    limit: i32,
    language: Option<Seq<char>>,
    project: Option<Seq<char>>,
    dedupe: bool,
) -> StatementView {
    fetches_all(
        joined(TEXT_SEARCH_HEAD@, dedup_clause(5), TEXT_SEARCH_TAIL@),
        seq![
            BindView::Text(query),
            BindView::Int(limit),
            BindView::OptText(language),
            BindView::OptText(project),
            BindView::Bool(dedupe),
        ],
    )
}

/// Files by full text, each with its best chunk.
pub fn text_search(
    query: &str,
    limit: i32,
    language: Option<&str>,
    project: Option<&str>,
    dedupe_worktrees: bool,
) -> (st: Statement)
    ensures
        st@ == text_query(query@, limit, opt_str(language), opt_str(project), dedupe_worktrees),
        opens(st@.sql, "SELECT"@),
        takes(st@, "ts_rank(c.content_tsv, plainto_tsquery('english', "@, BindView::Text(query@)),
        takes(st@, "f.language = "@, BindView::OptText(opt_str(language))),
        takes(st@, "p.name = "@, BindView::OptText(opt_str(project))),
        takes(st@, "(NOT "@, BindView::Bool(dedupe_worktrees)),
        takes(st@, "LIMIT "@, BindView::Int(limit)),
{
    proof {
        law_text_search_keeps_what_is_asked_for(
            query@,
            limit,
            opt_str(language),
            opt_str(project),
            dedupe_worktrees,
        );
    }
    let sql = join(TEXT_SEARCH_HEAD, worktree_dedup_clause(5), TEXT_SEARCH_TAIL);
    Statement::all(sql.as_str())
        .text(query)
        .int4(limit)
        .opt_text(language)
        .opt_text(project)
        .flag(dedupe_worktrees)
}

/// Limiting how long the statements of a transaction may take.
pub open spec fn limits_time(ms: u32) -> StatementView {
    executes("SET LOCAL statement_timeout = "@ + decimal_text(ms as int), seq![])
}

/// Limits how long the statements of a transaction may take.
pub fn limit_time(ms: u32) -> (st: Statement)
    ensures
        st@ == limits_time(ms),
{
    let mut m = String::from_str("SET LOCAL statement_timeout = ");
    m.append(decimal(ms as i64).as_str());
    Statement::execute(m.as_str())
}

/// Files by full text, given up after `statement_timeout_ms` milliseconds.
pub fn text_search_bounded(
    query: &str,
    limit: i32,
    language: Option<&str>,
    project: Option<&str>,
    dedupe_worktrees: bool,
    statement_timeout_ms: u32,
) -> (r: TunedQuery)
    ensures
        r@ == (TunedView {
            settings: seq![limits_time(statement_timeout_ms)],
            query: text_query(
                query@,
                limit,
                opt_str(language),
                opt_str(project),
                dedupe_worktrees,
            ),
        }),
{
    let settings: Vec<Statement> = vec![limit_time(statement_timeout_ms)];
    let r = TunedQuery {
        settings,
        query: text_search(query, limit, language, project, dedupe_worktrees),
    };
    assert(statement_views(r.settings@) =~= seq![limits_time(statement_timeout_ms)]);
    r
}

pub const GREP_IN_FILES_HEAD: &'static str = "SELECT DISTINCT ON (f.id)
                f.path,
                f.relative_path,
                f.language,
                c.content
             FROM file_chunks c
             JOIN indexed_files f ON c.file_id = COALESCE(f.duplicate_of_file_id, f.id)
             WHERE c.content ~ $1
               AND f.relative_path LIKE $3
               AND ";

pub const GREP_HEAD: &'static str = "SELECT DISTINCT ON (f.id)
                f.path,
                f.relative_path,
                f.language,
                c.content
             FROM file_chunks c
             JOIN indexed_files f ON c.file_id = COALESCE(f.duplicate_of_file_id, f.id)
             WHERE c.content ~ $1
               AND ";

pub const GREP_TAIL: &'static str = "
             ORDER BY f.id, c.chunk_index
             LIMIT $2";

/// The query for the files whose text matches a pattern, each with its first
/// matching chunk.
pub open spec fn grep_query(
    pattern: Seq<char>,
    like: Option<Seq<char>>,
    limit: i32,
    dedupe: bool,
) -> StatementView {
    match like {
        Some(l) => fetches_all(
            joined(GREP_IN_FILES_HEAD@, dedup_clause(4), GREP_TAIL@),
            seq![
                BindView::Text(pattern),
                BindView::Int(limit),
                BindView::Text(l),
                BindView::Bool(dedupe),
            ],
        ),
        None => fetches_all(
            joined(GREP_HEAD@, dedup_clause(3), GREP_TAIL@),
            seq![BindView::Text(pattern), BindView::Int(limit), BindView::Bool(dedupe)],
        ),
    }
}

/// The text of a borrowed or owned string.
fn cow_str<'a>(c: &'a Cow<'_, str>) -> (r: &'a str)
    ensures
        r@ == cow_text(*c),
{
    match c {
        Cow::Borrowed(s) => s,
        Cow::Owned(s) => s.as_str(),
    }
}

/// Files whose text matches a regular expression, optionally only those whose
/// path matches a file pattern.
pub fn grep_search(
    pattern: &str,
    glob: Option<&str>,
    limit: i32,
    dedupe_worktrees: bool,
) -> (st: Statement)
    ensures
        st@ == grep_query(translated(pattern@), opt_like(glob), limit, dedupe_worktrees),
        opt_like(glob) is Some ==> opens(st@.sql, "SELECT DISTINCT ON"@),
        opt_like(glob) is Some ==> takes(
            st@,
            "c.content ~ "@,
            BindView::Text(translated(pattern@)),
        ),
        opt_like(glob) is Some ==> takes(
            st@,
            "f.relative_path LIKE "@,
            BindView::Text(opt_like(glob)->0),
        ),
        opt_like(glob) is Some ==> takes(st@, "(NOT "@, BindView::Bool(dedupe_worktrees)),
        opt_like(glob) is Some ==> takes(st@, "LIMIT "@, BindView::Int(limit)),
        opt_like(glob) is None ==> opens(st@.sql, "SELECT DISTINCT ON"@),
        opt_like(glob) is None ==> takes(
            st@,
            "c.content ~ "@,
            BindView::Text(translated(pattern@)),
        ),
        opt_like(glob) is None ==> takes(st@, "(NOT "@, BindView::Bool(dedupe_worktrees)),
        opt_like(glob) is None ==> takes(st@, "LIMIT "@, BindView::Int(limit)),
{
    proof {
        law_grep_keeps_what_is_asked_for(
            translated(pattern@),
            opt_like(glob),
            limit,
            dedupe_worktrees,
        );
    }
    let pat = translate_pcre_boundaries(pattern);
    let st = match glob {
        Some(g) => {
            let like = glob_to_like(g);
            let sql = join(GREP_IN_FILES_HEAD, worktree_dedup_clause(4), GREP_TAIL);
            Statement::all(sql.as_str())
                .text(cow_str(&pat))
                .int4(limit)
                .text(like.as_str())
                .flag(dedupe_worktrees)
        },
        None => {
            let sql = join(GREP_HEAD, worktree_dedup_clause(3), GREP_TAIL);
            Statement::all(sql.as_str()).text(cow_str(&pat)).int4(limit).flag(dedupe_worktrees)
        },
    };
    proof {
        assert(st@ == grep_query(
            translated(pattern@),
            opt_like(glob),
            limit,
            dedupe_worktrees,
        ));
    }
    st
}

pub const GREP_CHUNKS_HEAD: &'static str = "SELECT
            p.name AS project_name,
            f.path,
            f.relative_path,
            f.language,
            c.chunk_index,
            c.start_line,
            c.end_line,
            c.content
         FROM file_chunks c
         JOIN indexed_files f ON c.file_id = COALESCE(f.duplicate_of_file_id, f.id)
         JOIN projects p ON p.id = f.project_id
         WHERE c.content ";

pub const GREP_CHUNKS_MIDDLE: &'static str = " $1
           AND ($2::text IS NULL OR p.name = $2)
           AND ($3::text IS NULL OR f.language = $3)
           AND ($4::text IS NULL OR f.relative_path LIKE $4)
           AND ";

pub const GREP_CHUNKS_TAIL: &'static str = "
         ORDER BY f.path, c.chunk_index
         LIMIT $6";

/// The operator that matches a regular expression, with or without regard to
/// case.
pub open spec fn match_operator(case_insensitive: bool) -> Seq<char> {
    if case_insensitive {
        "~*"@
    } else {
        "~"@
    }
}

/// The query for the chunks that match a regular expression.
pub open spec fn grep_chunks_sql(case_insensitive: bool) -> Seq<char> {
    GREP_CHUNKS_HEAD@ + match_operator(case_insensitive) + GREP_CHUNKS_MIDDLE@ + dedup_clause(5)
        + GREP_CHUNKS_TAIL@
}

/// Chunks that match a regular expression, optionally of one project,
/// language or file pattern.
pub fn grep_search_chunks(
    pattern: &str,
    project: Option<&str>,
    language: Option<&str>,
    glob: Option<&str>,
    case_insensitive: bool,
    limit: i32,
    dedupe_worktrees: bool,
) -> (st: Statement)
    ensures
        st@ == fetches_all(
            grep_chunks_sql(case_insensitive),
            seq![
                BindView::Text(translated(pattern@)),
                BindView::OptText(opt_str(project)),
                BindView::OptText(opt_str(language)),
                BindView::OptText(opt_like(glob)),
                BindView::Bool(dedupe_worktrees),
                BindView::Int(limit),
            ],
        ),
        opens(st@.sql, "SELECT"@),
        says(st@.sql, "WHERE c.content"@),
        says(st@.sql, "FROM file_chunks"@),
        case_insensitive ==> takes(
            st@,
            "c.content ~* "@,
            BindView::Text(translated(pattern@)),
        ),
        !case_insensitive ==> takes(
            st@,
            "c.content ~ "@,
            BindView::Text(translated(pattern@)),
        ),
        takes(st@, "p.name = "@, BindView::OptText(opt_str(project))),
        takes(st@, "f.language = "@, BindView::OptText(opt_str(language))),
        takes(st@, "f.relative_path LIKE "@, BindView::OptText(opt_like(glob))),
        takes(st@, "(NOT "@, BindView::Bool(dedupe_worktrees)),
        says(st@.sql, "WHERE p_dup.id < p_self.id"@),
        says(st@.sql, "AND f_dup.relative_path = f.relative_path"@),
        says(st@.sql, "AND p_dup.git_common_dir = p_self.git_common_dir)"@),
        says(st@.sql, "AND p_dup.git_root_commits = p_self.git_root_commits)"@),
        says(st@.sql, "FROM projects"@),
        takes(st@, "LIMIT "@, BindView::Int(limit)),
        says(st@.sql, "ORDER BY f.path, c.chunk_index"@),
{
    let operator: &str = if case_insensitive {
        "~*"
    } else {
        "~"
    };
    let like: Option<String> = match glob {
        Some(g) => Some(glob_to_like(g)),
        None => None,
    };
    let mut sql = String::from_str(GREP_CHUNKS_HEAD);
    sql.append(operator);
    sql.append(GREP_CHUNKS_MIDDLE);
    sql.append(worktree_dedup_clause(5));
    sql.append(GREP_CHUNKS_TAIL);
    let pat = translate_pcre_boundaries(pattern);
    let st = Statement::all(sql.as_str())
        .text(cow_str(&pat))
        .opt_text(project)
        .opt_text(language)
        .opt_text(
            match &like {
                Some(l) => Some(l.as_str()),
                None => None,
            },
        )
        .flag(dedupe_worktrees)
        .int4(limit);
    proof {
        grep_operator_text(case_insensitive);
        let opening = GREP_CHUNKS_HEAD@ + match_operator(case_insensitive) + GREP_CHUNKS_MIDDLE@;
        assert(st@.sql =~= opening + (DEDUP_5@ + GREP_CHUNKS_TAIL@));
        lemma_within(st@.sql, seq![], opening, DEDUP_5@ + GREP_CHUNKS_TAIL@);
        grep_chunks_head_text();
        grep_chunks_middle_text();
        dedup_5_text();
        grep_chunks_tail_text();
        assert(st@.sql =~= GREP_CHUNKS_HEAD@ + (match_operator(case_insensitive) + GREP_CHUNKS_MIDDLE@ + DEDUP_5@ + GREP_CHUNKS_TAIL@));
        lemma_within(
            st@.sql,
            seq![],
            GREP_CHUNKS_HEAD@,
            match_operator(case_insensitive) + GREP_CHUNKS_MIDDLE@ + DEDUP_5@ + GREP_CHUNKS_TAIL@,
        );
        assert(st@.sql =~= (GREP_CHUNKS_HEAD@ + match_operator(case_insensitive)) + GREP_CHUNKS_MIDDLE@ + (DEDUP_5@ + GREP_CHUNKS_TAIL@));
        lemma_within(
            st@.sql,
            GREP_CHUNKS_HEAD@ + match_operator(case_insensitive),
            GREP_CHUNKS_MIDDLE@,
            DEDUP_5@ + GREP_CHUNKS_TAIL@,
        );
        assert(st@.sql =~= (GREP_CHUNKS_HEAD@ + match_operator(case_insensitive) + GREP_CHUNKS_MIDDLE@) + DEDUP_5@ + (GREP_CHUNKS_TAIL@));
        lemma_within(
            st@.sql,
            GREP_CHUNKS_HEAD@ + match_operator(case_insensitive) + GREP_CHUNKS_MIDDLE@,
            DEDUP_5@,
            GREP_CHUNKS_TAIL@,
        );
        assert(st@.sql =~= (GREP_CHUNKS_HEAD@ + match_operator(case_insensitive) + GREP_CHUNKS_MIDDLE@ + DEDUP_5@) + GREP_CHUNKS_TAIL@);
        lemma_within(
            st@.sql,
            GREP_CHUNKS_HEAD@ + match_operator(case_insensitive) + GREP_CHUNKS_MIDDLE@ + DEDUP_5@,
            GREP_CHUNKS_TAIL@,
            seq![],
        );
    }
    st
}

pub const RECALL_PROMPTS_SQL: &'static str = "SELECT sp.id,
                sp.session_id,
                p.name AS project_name,
                sp.ts,
                sp.prompt_text,
                1 - (sp.embedding_v2 <=> $1) AS similarity
         FROM session_prompts sp
         JOIN sessions s ON s.id = sp.session_id
         LEFT JOIN projects p ON p.id = s.project_id
         WHERE sp.embedding_v2 IS NOT NULL
           AND ($2::text IS NULL OR p.name = $2)
           AND ($3::uuid IS NULL OR sp.session_id = $3)
         ORDER BY sp.embedding_v2 <=> $1
         LIMIT $4";

pub const RECALL_PROMPTS_REFUSAL: &'static str =
    "recall_prompts: expected a 1024-dimension BGE-M3 query embedding, got ";

/// Past prompts by similarity to a query, between 1 and 200 of them,
/// optionally of one project or session. The caller supplies value 0, the
/// embedding, of dimension `dim`, and value 1, the session or none.
pub fn recall_prompts_semantic(
    dim: usize,
    project_name: Option<&str>,
    limit: i32,
    ef_search: i32,
) -> (r: Result<TunedQuery, ProtocolError>)
    ensures
        r is Ok <==> dim == EMBEDDING_DIM,
        r matches Err(e) ==> e@ == dimension_refusal(RECALL_PROMPTS_REFUSAL@, dim),
        r matches Ok(q) ==> q@ == tuned(
            ef_search,
            fetches_all(
                RECALL_PROMPTS_SQL@,
                seq![
                    BindView::Supplied(0),
                    BindView::OptText(opt_str(project_name)),
                    BindView::Supplied(1),
                    BindView::Int(clamped(limit as int, 1, 200) as i32),
                ],
            ),
        ),
        r matches Ok(q) ==> opens(q@.query.sql, "SELECT"@),
        r matches Ok(q) ==> takes(q@.query, "sp.embedding_v2 <=> "@, BindView::Supplied(0)),
        r matches Ok(q) ==> takes(q@.query, "p.name = "@, BindView::OptText(opt_str(project_name))),
        r matches Ok(q) ==> takes(q@.query, "sp.session_id = "@, BindView::Supplied(1)),
        r matches Ok(q) ==> takes(
            q@.query,
            "LIMIT "@,
            BindView::Int(clamped(limit as int, 1, 200) as i32),
        ),
        r matches Ok(q) ==> says(q@.query.sql, "WHERE sp.embedding_v2 IS NOT NULL"@),
        r matches Ok(q) ==> says(q@.query.sql, "FROM session_prompts"@),
{
    proof {
        recall_prompts_text();
    }
    match require_dimension(dim, RECALL_PROMPTS_REFUSAL) {
        Ok(_) => {},
        Err(e) => return Err(e),
    }
    let query = Statement::all(RECALL_PROMPTS_SQL)
        .supplied(0)
        .opt_text(project_name)
        .supplied(1)
        .int4(clamp(limit, 1, 200));
    assert(query@.sql == RECALL_PROMPTS_SQL@);
    assert(query@ =~= fetches_all(
        RECALL_PROMPTS_SQL@,
        seq![
            BindView::Supplied(0),
            BindView::OptText(opt_str(project_name)),
            BindView::Supplied(1),
            BindView::Int(clamped(limit as int, 1, 200) as i32),
        ],
    ));
    Ok(tune(ef_search, query))
}

pub const SEARCH_MANDATES_FTS_SQL: &'static str = "SELECT m.id, m.scope, m.project_id, p.name AS project_name,
                m.polarity, m.imperative, m.target, m.promoted_at, m.file_path,
                ts_rank_cd(
                  to_tsvector('english', m.imperative || ' ' || COALESCE(m.target, '')),
                  plainto_tsquery('english', $1)
                ) AS rank
         FROM durable_mandates m
         LEFT JOIN projects p ON p.id = m.project_id
         WHERE to_tsvector('english', m.imperative || ' ' || COALESCE(m.target, ''))
               @@ plainto_tsquery('english', $1)
           AND ($2::text IS NULL OR m.polarity = $2)
           AND ($3::text IS NULL OR m.scope = $3)
           AND ($4::int  IS NULL OR m.project_id = $4 OR m.scope = 'workspace')
         ORDER BY rank DESC NULLS LAST, m.promoted_at DESC
         LIMIT $5";

/// Standing mandates by full text, between 1 and 200 of them, optionally of one
/// polarity, scope or project.
pub fn search_mandates_fts(
    query_text: &str,
    polarity: Option<&str>,
    scope: Option<&str>,
    project_id: Option<i32>,
    limit: i32,
) -> (st: Statement)
    ensures
        st@ == fetches_all(
            SEARCH_MANDATES_FTS_SQL@,
            seq![
                BindView::Text(query_text@),
                BindView::OptText(opt_str(polarity)),
                BindView::OptText(opt_str(scope)),
                BindView::OptInt(project_id),
                BindView::Int(clamped(limit as int, 1, 200) as i32),
            ],
        ),
        opens(st@.sql, "SELECT"@),
        takes(st@, "plainto_tsquery('english', "@, BindView::Text(query_text@)),
        takes(st@, "m.polarity = "@, BindView::OptText(opt_str(polarity))),
        takes(st@, "m.scope = "@, BindView::OptText(opt_str(scope))),
        takes(st@, "m.project_id = "@, BindView::OptInt(project_id)),
        takes(st@, "LIMIT "@, BindView::Int(clamped(limit as int, 1, 200) as i32)),
        says(st@.sql, "ORDER BY rank DESC NULLS LAST, m.promoted_at DESC"@),
        says(st@.sql, "FROM durable_mandates"@),
{
    proof {
        search_mandates_fts_text();
    }
    let st = Statement::all(SEARCH_MANDATES_FTS_SQL)
        .text(query_text)
        .opt_text(polarity)
        .opt_text(scope)
        .opt_int4(project_id)
        .int4(clamp(limit, 1, 200));
    assert(st@.sql == SEARCH_MANDATES_FTS_SQL@);
    st
}

pub const SEARCH_MANDATES_SEMANTIC_SQL: &'static str = "SELECT m.id, m.scope, m.project_id, p.name AS project_name,
                m.polarity, m.imperative, m.target, m.promoted_at, m.file_path,
                (1.0 - (m.embedding <=> $1))::float4 AS rank
         FROM durable_mandates m
         LEFT JOIN projects p ON p.id = m.project_id
         WHERE m.embedding IS NOT NULL
           AND ($2::text IS NULL OR m.polarity = $2)
           AND ($3::text IS NULL OR m.scope = $3)
           AND ($4::int  IS NULL OR m.project_id = $4 OR m.scope = 'workspace')
         ORDER BY m.embedding <=> $1
         LIMIT $5";

pub const SEARCH_MANDATES_REFUSAL: &'static str =
    "search_mandates: expected a 1024-dimension BGE-M3 query embedding, got ";

/// Standing mandates by similarity to a query, between 1 and 200 of them,
/// optionally of one polarity, scope or project. The caller supplies value 0,
/// the embedding, of dimension `dim`.
pub fn search_mandates_semantic(
    dim: usize,
    polarity: Option<&str>,
    scope: Option<&str>,
    project_id: Option<i32>,
    limit: i32,
    ef_search: i32,
) -> (r: Result<TunedQuery, ProtocolError>)
    ensures
        r is Ok <==> dim == EMBEDDING_DIM,
        r matches Err(e) ==> e@ == dimension_refusal(SEARCH_MANDATES_REFUSAL@, dim),
        r matches Ok(q) ==> q@ == tuned(
            ef_search,
            fetches_all(
                SEARCH_MANDATES_SEMANTIC_SQL@,
                seq![
                    BindView::Supplied(0),
                    BindView::OptText(opt_str(polarity)),
                    BindView::OptText(opt_str(scope)),
                    BindView::OptInt(project_id),
                    BindView::Int(clamped(limit as int, 1, 200) as i32),
                ],
            ),
        ),
        r matches Ok(q) ==> opens(q@.query.sql, "SELECT"@),
        r matches Ok(q) ==> takes(q@.query, "m.embedding <=> "@, BindView::Supplied(0)),
        r matches Ok(q) ==> takes(q@.query, "m.polarity = "@, BindView::OptText(opt_str(polarity))),
        r matches Ok(q) ==> takes(q@.query, "m.scope = "@, BindView::OptText(opt_str(scope))),
        r matches Ok(q) ==> takes(q@.query, "m.project_id = "@, BindView::OptInt(project_id)),
        r matches Ok(q) ==> takes(
            q@.query,
            "LIMIT "@,
            BindView::Int(clamped(limit as int, 1, 200) as i32),
        ),
        r matches Ok(q) ==> says(q@.query.sql, "WHERE m.embedding IS NOT NULL"@),
        r matches Ok(q) ==> says(q@.query.sql, "FROM durable_mandates"@),
{
    proof {
        search_mandates_semantic_text();
    }
    match require_dimension(dim, SEARCH_MANDATES_REFUSAL) {
        Ok(_) => {},
        Err(e) => return Err(e),
    }
    let query = Statement::all(SEARCH_MANDATES_SEMANTIC_SQL)
        .supplied(0)
        .opt_text(polarity)
        .opt_text(scope)
        .opt_int4(project_id)
        .int4(clamp(limit, 1, 200));
    assert(query@.sql == SEARCH_MANDATES_SEMANTIC_SQL@);
    assert(query@ =~= fetches_all(
        SEARCH_MANDATES_SEMANTIC_SQL@,
        seq![
            BindView::Supplied(0),
            BindView::OptText(opt_str(polarity)),
            BindView::OptText(opt_str(scope)),
            BindView::OptInt(project_id),
            BindView::Int(clamped(limit as int, 1, 200) as i32),
        ],
    ));
    Ok(tune(ef_search, query))
}

} // verus!
