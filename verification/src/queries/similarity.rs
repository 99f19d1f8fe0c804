//! Similarity between chunks and files of different projects.
use vstd::prelude::*;

use crate::embedding::{set_ef_search, sets_ef_search, tune, tuned, TunedQuery, TunedView};
use crate::meaning::{fills, lemma_within, opens, says, takes};
use crate::protocol::statement_views;
use crate::queries::texts::similarity::{
    clear_similarity_table_text, compare_files_1_text, compare_files_2_text, compare_files_3_text,
    compare_within_1_text, compare_within_2_text, compare_within_3_text, compare_within_4_text,
    compare_within_5_text, count_similarity_pairs_text, cross_project_neighbors_1_text,
    cross_project_neighbors_2_text, cross_project_neighbors_3_text, cross_project_neighbors_4_text,
    find_chunk_similarity_pairs_text, find_pattern_abstraction_pairs_text,
    law_duplicates_are_of_the_language, law_files_of_the_same_repository_need_the_flag,
    law_similar_files_keep_what_is_asked_for, law_stores_pair_stands_for_its_values,
    max_chunk_id_text, top_similar_file_pairs_text,
};
use crate::statement::{
    executes, fetches_all, fetches_one, opt_str, BindView, Fetch, Statement, StatementView,
};

verus! {

pub const COMPARE_FILES_1: &'static str = "SELECT ca.id as chunk_id_a, ca.content as content_a,
                ca.start_line as start_line_a, ca.end_line as end_line_a,
                cb.id as chunk_id_b, cb.content as content_b,
                cb.start_line as start_line_b, cb.end_line as end_line_b,
                1 - (ca.";

pub const COMPARE_FILES_2: &'static str = " <=> cb.";

pub const COMPARE_FILES_3: &'static str = ") as similarity
         FROM file_chunks ca
         CROSS JOIN file_chunks cb
         WHERE ca.file_id = $1 AND cb.file_id = $2
         ORDER BY similarity DESC";

/// The query for the similarity of all chunks of two files, by the embeddings
/// in column `col`.
pub open spec fn compare_files_sql(col: Seq<char>) -> Seq<char> {
    COMPARE_FILES_1@ + col + COMPARE_FILES_2@ + col + COMPARE_FILES_3@
}

fn write_compare_files_sql(col: &str) -> (r: String)
    ensures
        r@ == compare_files_sql(col@),
{
    let mut m = String::from_str(COMPARE_FILES_1);
    m.append(col);
    m.append(COMPARE_FILES_2);
    m.append(col);
    m.append(COMPARE_FILES_3);
    m
}

/// The similarity of all chunks of two files, by the embeddings in column
/// `col`, the most similar first.
pub fn compare_two_files(
    col: &str,
    file_id_a: i64,
    file_id_b: i64,
    ef_search: i32,
) -> (r: TunedQuery)
    ensures
        r@ == tuned(
            ef_search,
            fetches_all(
                compare_files_sql(col@),
                seq![
                    BindView::BigInt(file_id_a),
                    BindView::BigInt(file_id_b),
                ],
            ),
        ),
        opens(r@.query.sql, "SELECT"@),
        takes(r@.query, "ca.file_id = "@, BindView::BigInt(file_id_a)),
        takes(r@.query, "cb.file_id = "@, BindView::BigInt(file_id_b)),
        says(r@.query.sql, "ORDER BY similarity DESC"@),
        says(r@.query.sql, "FROM file_chunks"@),
{
    let query = Statement::all(write_compare_files_sql(col).as_str())
        .int8(file_id_a)
        .int8(file_id_b);
    assert(query@ =~= fetches_all(
        compare_files_sql(col@),
        seq![
            BindView::BigInt(file_id_a),
            BindView::BigInt(file_id_b),
        ],
    ));
    proof {
        compare_files_1_text();
        compare_files_2_text();
        compare_files_3_text();
        assert(query@.sql =~= COMPARE_FILES_1@ + (col@ + COMPARE_FILES_2@ + col@ + COMPARE_FILES_3@));
        lemma_within(
            query@.sql,
            seq![],
            COMPARE_FILES_1@,
            col@ + COMPARE_FILES_2@ + col@ + COMPARE_FILES_3@,
        );
        assert(query@.sql =~= (COMPARE_FILES_1@ + col@ + COMPARE_FILES_2@ + col@) + COMPARE_FILES_3@);
        lemma_within(
            query@.sql,
            COMPARE_FILES_1@ + col@ + COMPARE_FILES_2@ + col@,
            COMPARE_FILES_3@,
            seq![],
        );
    }
    tune(ef_search, query)
}

pub const COMPARE_WITHIN_1: &'static str = "SELECT ca.id AS chunk_id_a, ca.content AS content_a,
                ca.start_line AS start_line_a, ca.end_line AS end_line_a,
                cb.id AS chunk_id_b, cb.content AS content_b,
                cb.start_line AS start_line_b, cb.end_line AS end_line_b,
                1 - (ca.";

pub const COMPARE_WITHIN_2: &'static str = " <=> cb.";

pub const COMPARE_WITHIN_3: &'static str = ") AS similarity
         FROM file_chunks ca
         JOIN file_chunks cb
              ON ca.file_id = cb.file_id AND ca.id < cb.id
         WHERE ca.file_id = $1
           AND 1 - (ca.";

pub const COMPARE_WITHIN_4: &'static str = " <=> cb.";

pub const COMPARE_WITHIN_5: &'static str = ") >= $2
         ORDER BY similarity DESC";

/// The query for the similar pairs of chunks of one file, by the embeddings in
/// column `col`.
pub open spec fn compare_within_sql(col: Seq<char>) -> Seq<char> {
    COMPARE_WITHIN_1@ + col + COMPARE_WITHIN_2@ + col + COMPARE_WITHIN_3@ + col
        + COMPARE_WITHIN_4@ + col + COMPARE_WITHIN_5@
}

fn write_compare_within_sql(col: &str) -> (r: String)
    ensures
        r@ == compare_within_sql(col@),
{
    let mut m = String::from_str(COMPARE_WITHIN_1);
    m.append(col);
    m.append(COMPARE_WITHIN_2);
    m.append(col);
    m.append(COMPARE_WITHIN_3);
    m.append(col);
    m.append(COMPARE_WITHIN_4);
    m.append(col);
    m.append(COMPARE_WITHIN_5);
    m
}

/// The similar pairs of chunks of one file, by the embeddings in column `col`,
/// each pair once. The caller supplies value 0, the least similarity.
pub fn compare_chunks_within_file(col: &str, file_id: i64, ef_search: i32) -> (r: TunedQuery)
    ensures
        r@ == tuned(
            ef_search,
            fetches_all(
                compare_within_sql(col@),
                seq![
                    BindView::BigInt(file_id),
                    BindView::Supplied(0),
                ],
            ),
        ),
        opens(r@.query.sql, "SELECT"@),
        takes(r@.query, "ca.file_id = "@, BindView::BigInt(file_id)),
        says(r@.query.sql, "AND 1 - (ca."@),
        says(r@.query.sql, "FROM file_chunks"@),
        takes(r@.query, ") >= "@, BindView::Supplied(0)),
        says(r@.query.sql, "ORDER BY similarity DESC"@),
{
    let query = Statement::all(write_compare_within_sql(col).as_str())
        .int8(file_id)
        .supplied(0);
    assert(query@ =~= fetches_all(
        compare_within_sql(col@),
        seq![
            BindView::BigInt(file_id),
            BindView::Supplied(0),
        ],
    ));
    proof {
        compare_within_1_text();
        compare_within_2_text();
        compare_within_3_text();
        compare_within_4_text();
        compare_within_5_text();
        assert(query@.sql =~= COMPARE_WITHIN_1@ + (col@ + COMPARE_WITHIN_2@ + col@ + COMPARE_WITHIN_3@ + col@ + COMPARE_WITHIN_4@ + col@ + COMPARE_WITHIN_5@));
        lemma_within(
            query@.sql,
            seq![],
            COMPARE_WITHIN_1@,
            col@ + COMPARE_WITHIN_2@ + col@ + COMPARE_WITHIN_3@ + col@ + COMPARE_WITHIN_4@ + col@ + COMPARE_WITHIN_5@,
        );
        assert(query@.sql =~= (COMPARE_WITHIN_1@ + col@ + COMPARE_WITHIN_2@ + col@) + COMPARE_WITHIN_3@ + (col@ + COMPARE_WITHIN_4@ + col@ + COMPARE_WITHIN_5@));
        lemma_within(
            query@.sql,
            COMPARE_WITHIN_1@ + col@ + COMPARE_WITHIN_2@ + col@,
            COMPARE_WITHIN_3@,
            col@ + COMPARE_WITHIN_4@ + col@ + COMPARE_WITHIN_5@,
        );
        assert(query@.sql =~= (COMPARE_WITHIN_1@ + col@ + COMPARE_WITHIN_2@ + col@ + COMPARE_WITHIN_3@ + col@ + COMPARE_WITHIN_4@ + col@) + COMPARE_WITHIN_5@);
        lemma_within(
            query@.sql,
            COMPARE_WITHIN_1@ + col@ + COMPARE_WITHIN_2@ + col@ + COMPARE_WITHIN_3@ + col@ + COMPARE_WITHIN_4@ + col@,
            COMPARE_WITHIN_5@,
            seq![],
        );
    }
    tune(ef_search, query)
}

/// A chunk and a close one in another project. Their similarity travels
/// beside it.
#[derive(Debug, Clone)]
pub struct SimilarityNeighborRow {
    pub chunk_id_a: i64,
    pub file_id_a: i64,
    pub project_id_a: i32,
    pub path_a: String,
    pub project_name_a: String,
    pub language: String,
    pub chunk_id_b: i64,
    pub file_id_b: i64,
    pub project_id_b: i32,
    pub path_b: String,
    pub project_name_b: String,
}

/// A pair of close chunks as it is stored.
#[derive(Debug)]
pub struct SimilarityPairInsert<'a> {
    pub chunk_id_a: i64,
    pub file_id_a: i64,
    pub project_id_a: i32,
    pub path_a: &'a str,
    pub project_name_a: &'a str,
    pub chunk_id_b: i64,
    pub file_id_b: i64,
    pub project_id_b: i32,
    pub path_b: &'a str,
    pub project_name_b: &'a str,
    pub language: &'a str,
}

/// One side of a pair.
pub struct SideView {
    pub chunk_id: i64,
    pub file_id: i64,
    pub project_id: i32,
    pub path: Seq<char>,
    pub project_name: Seq<char>,
}

/// A pair of chunks: its two sides and their language.
pub struct PairView {
    pub a: SideView,
    pub b: SideView,
    pub language: Seq<char>,
}

impl View for SimilarityNeighborRow {
    type V = PairView;

    open spec fn view(&self) -> PairView {
        PairView {
            a: SideView {
                chunk_id: self.chunk_id_a,
                file_id: self.file_id_a,
                project_id: self.project_id_a,
                path: self.path_a@,
                project_name: self.project_name_a@,
            },
            b: SideView {
                chunk_id: self.chunk_id_b,
                file_id: self.file_id_b,
                project_id: self.project_id_b,
                path: self.path_b@,
                project_name: self.project_name_b@,
            },
            language: self.language@,
        }
    }
}

/// Each side of the model stands for the fields of that side.
pub proof fn law_similarity_neighbor_row_is_modelled_by_its_fields(row: SimilarityNeighborRow)
    ensures
        row@.a.chunk_id == row.chunk_id_a,
        row@.a.file_id == row.file_id_a,
        row@.a.project_id == row.project_id_a,
        row@.a.path == row.path_a@,
        row@.a.project_name == row.project_name_a@,
        row@.b.chunk_id == row.chunk_id_b,
        row@.b.file_id == row.file_id_b,
        row@.b.project_id == row.project_id_b,
        row@.b.path == row.path_b@,
        row@.b.project_name == row.project_name_b@,
        row@.language == row.language@,
{
}

impl<'a> View for SimilarityPairInsert<'a> {
    type V = PairView;

    open spec fn view(&self) -> PairView {
        PairView {
            a: SideView {
                chunk_id: self.chunk_id_a,
                file_id: self.file_id_a,
                project_id: self.project_id_a,
                path: self.path_a@,
                project_name: self.project_name_a@,
            },
            b: SideView {
                chunk_id: self.chunk_id_b,
                file_id: self.file_id_b,
                project_id: self.project_id_b,
                path: self.path_b@,
                project_name: self.project_name_b@,
            },
            language: self.language@,
        }
    }
}

/// Each side of the model stands for the fields of that side.
pub proof fn law_similarity_pair_insert_is_modelled_by_its_fields(insert: SimilarityPairInsert<'_>)
    ensures
        insert@.a.chunk_id == insert.chunk_id_a,
        insert@.a.file_id == insert.file_id_a,
        insert@.a.project_id == insert.project_id_a,
        insert@.a.path == insert.path_a@,
        insert@.a.project_name == insert.project_name_a@,
        insert@.b.chunk_id == insert.chunk_id_b,
        insert@.b.file_id == insert.file_id_b,
        insert@.b.project_id == insert.project_id_b,
        insert@.b.path == insert.path_b@,
        insert@.b.project_name == insert.project_name_b@,
        insert@.language == insert.language@,
{
}

/// A pair with the lower chunk id on its first side.
pub open spec fn ordered_pair(p: PairView) -> PairView {
    if p.a.chunk_id <= p.b.chunk_id {
        p
    } else {
        PairView { a: p.b, b: p.a, ..p }
    }
}

/// Puts the side with the lower chunk id first, with all that belongs to it.
pub fn normalize_similarity_pair(row: &SimilarityNeighborRow) -> (r: SimilarityPairInsert<'_>)
    ensures
        r@ == ordered_pair(row@),
{
    if row.chunk_id_a <= row.chunk_id_b {
        SimilarityPairInsert {
            chunk_id_a: row.chunk_id_a,
            file_id_a: row.file_id_a,
            project_id_a: row.project_id_a,
            path_a: row.path_a.as_str(),
            project_name_a: row.project_name_a.as_str(),
            chunk_id_b: row.chunk_id_b,
            file_id_b: row.file_id_b,
            project_id_b: row.project_id_b,
            path_b: row.path_b.as_str(),
            project_name_b: row.project_name_b.as_str(),
            language: row.language.as_str(),
        }
    } else {
        SimilarityPairInsert {
            chunk_id_a: row.chunk_id_b,
            file_id_a: row.file_id_b,
            project_id_a: row.project_id_b,
            path_a: row.path_b.as_str(),
            project_name_a: row.project_name_b.as_str(),
            chunk_id_b: row.chunk_id_a,
            file_id_b: row.file_id_a,
            project_id_b: row.project_id_a,
            path_b: row.path_a.as_str(),
            project_name_b: row.project_name_a.as_str(),
            language: row.language.as_str(),
        }
    }
}

/// Ordering a pair keeps the two sides whole, puts the lower chunk id first,
/// and gives the same result whichever side came first, unless both sides
/// are the same chunk.
pub proof fn law_pairs_are_stored_once(p: PairView)
    ensures
        ordered_pair(p).a.chunk_id <= ordered_pair(p).b.chunk_id,
        ordered_pair(p) == p || ordered_pair(p) == (PairView { a: p.b, b: p.a, ..p }),
        ordered_pair(ordered_pair(p)) == ordered_pair(p),
        p.a.chunk_id != p.b.chunk_id ==> ordered_pair(p) == ordered_pair(
            PairView { a: p.b, b: p.a, ..p },
        ),
{
}

pub const CROSS_PROJECT_NEIGHBORS_1: &'static str = "WITH batch AS (
            SELECT c.id, c.file_id, c.";

pub const CROSS_PROJECT_NEIGHBORS_2: &'static str = " AS embedding, f.project_id, f.path, f.language,
                   p.name as project_name,
                   p.git_common_dir as git_common_dir_b,
                   p.git_root_commits as git_root_commits_b
            FROM file_chunks c
            JOIN indexed_files f ON f.id = c.file_id
            JOIN projects p ON p.id = f.project_id
            WHERE c.id > $1
            ORDER BY c.id
            LIMIT $2
        )
        SELECT b.id as chunk_id_a, b.file_id as file_id_a, b.project_id as project_id_a,
               b.path as path_a, b.project_name as project_name_a, b.language,
               nn.chunk_id_b, nn.file_id_b, nn.project_id_b, nn.path_b, nn.project_name_b,
               nn.similarity
        FROM batch b
        CROSS JOIN LATERAL (
            SELECT c2.id as chunk_id_b, c2.file_id as file_id_b, f2.project_id as project_id_b,
                   f2.path as path_b, p2.name as project_name_b,
                   1 - (c2.";

pub const CROSS_PROJECT_NEIGHBORS_3: &'static str = " <=> b.embedding) as similarity
            FROM file_chunks c2
            JOIN indexed_files f2 ON f2.id = c2.file_id
            JOIN projects p2 ON p2.id = f2.project_id
            WHERE f2.project_id != b.project_id
              AND NOT (
                  p2.git_common_dir IS NOT NULL
                  AND p2.git_common_dir = b.git_common_dir_b
              )
              AND NOT (
                  p2.git_root_commits IS NOT NULL
                  AND p2.git_root_commits = b.git_root_commits_b
              )
            ORDER BY c2.";

pub const CROSS_PROJECT_NEIGHBORS_4: &'static str = " <=> b.embedding
            LIMIT $3
        ) nn
        WHERE nn.similarity >= $4";

/// The query for the closest chunks in other projects, by the embeddings in
/// column `col`.
pub open spec fn cross_project_neighbors_sql(col: Seq<char>) -> Seq<char> {
    CROSS_PROJECT_NEIGHBORS_1@ + col + CROSS_PROJECT_NEIGHBORS_2@ + col
        + CROSS_PROJECT_NEIGHBORS_3@ + col + CROSS_PROJECT_NEIGHBORS_4@
}

fn write_cross_project_neighbors_sql(col: &str) -> (r: String)
    ensures
        r@ == cross_project_neighbors_sql(col@),
{
    let mut m = String::from_str(CROSS_PROJECT_NEIGHBORS_1);
    m.append(col);
    m.append(CROSS_PROJECT_NEIGHBORS_2);
    m.append(col);
    m.append(CROSS_PROJECT_NEIGHBORS_3);
    m.append(col);
    m.append(CROSS_PROJECT_NEIGHBORS_4);
    m
}

pub const SIMILARITY_SCAN_TIMEOUT_SQL: &'static str = "SET LOCAL statement_timeout = '5min'";

pub const SIMILARITY_SCAN_NAME_SQL: &'static str =
    "SET LOCAL application_name = 'pgmcp:heavy:similarity-scan'";

/// The closest chunks in other projects of the next batch of chunks, by the
/// embeddings in column `col`. Projects that are worktrees or clones of one
/// repository do not count as other projects. The caller supplies value 0,
/// the least similarity.
pub fn batch_find_cross_project_neighbors(
    col: &str,
    last_chunk_id: i64,
    batch_size: i32,
    top_k: i32,
    ef_search: i32,
) -> (r: TunedQuery)
    ensures
        r@ == (TunedView {
            settings: seq![
                sets_ef_search(ef_search),
                executes(SIMILARITY_SCAN_TIMEOUT_SQL@, seq![]),
                executes(SIMILARITY_SCAN_NAME_SQL@, seq![]),
            ],
            query: fetches_all(
                cross_project_neighbors_sql(col@),
                seq![
                    BindView::BigInt(last_chunk_id),
                    BindView::Int(batch_size),
                    BindView::Int(top_k),
                    BindView::Supplied(0),
                ],
            ),
        }),
        opens(r@.query.sql, "WITH"@),
        takes(r@.query, "c.id > "@, BindView::BigInt(last_chunk_id)),
        takes(r@.query, "LIMIT "@, BindView::Int(batch_size)),
        says(r@.query.sql, "ORDER BY c.id"@),
        says(r@.query.sql, "FROM file_chunks"@),
        says(r@.query.sql, "WHERE f2.project_id != b.project_id"@),
        says(r@.query.sql, "AND p2.git_common_dir = b.git_common_dir_b"@),
        says(r@.query.sql, "AND p2.git_root_commits = b.git_root_commits_b"@),
        says(r@.query.sql, "ORDER BY c2."@),
        takes(r@.query, "LIMIT "@, BindView::Int(top_k)),
        takes(r@.query, "nn.similarity >= "@, BindView::Supplied(0)),
{
    let settings: Vec<Statement> = vec![
        set_ef_search(ef_search),
        Statement::execute(SIMILARITY_SCAN_TIMEOUT_SQL),
        Statement::execute(SIMILARITY_SCAN_NAME_SQL),
    ];
    let query = Statement::all(write_cross_project_neighbors_sql(col).as_str())
        .int8(last_chunk_id)
        .int4(batch_size)
        .int4(top_k)
        .supplied(0);
    assert(statement_views(settings@) =~= seq![settings@[0]@, settings@[1]@, settings@[2]@]);
    assert(query@ =~= fetches_all(
        cross_project_neighbors_sql(col@),
        seq![
            BindView::BigInt(last_chunk_id),
            BindView::Int(batch_size),
            BindView::Int(top_k),
            BindView::Supplied(0),
        ],
    ));
    proof {
        cross_project_neighbors_1_text();
        cross_project_neighbors_2_text();
        cross_project_neighbors_3_text();
        cross_project_neighbors_4_text();
        assert(query@.sql =~= CROSS_PROJECT_NEIGHBORS_1@ + (col@ + CROSS_PROJECT_NEIGHBORS_2@ + col@ + CROSS_PROJECT_NEIGHBORS_3@ + col@ + CROSS_PROJECT_NEIGHBORS_4@));
        lemma_within(
            query@.sql,
            seq![],
            CROSS_PROJECT_NEIGHBORS_1@,
            col@ + CROSS_PROJECT_NEIGHBORS_2@ + col@ + CROSS_PROJECT_NEIGHBORS_3@ + col@ + CROSS_PROJECT_NEIGHBORS_4@,
        );
        assert(query@.sql =~= (CROSS_PROJECT_NEIGHBORS_1@ + col@) + CROSS_PROJECT_NEIGHBORS_2@ + (col@ + CROSS_PROJECT_NEIGHBORS_3@ + col@ + CROSS_PROJECT_NEIGHBORS_4@));
        lemma_within(
            query@.sql,
            CROSS_PROJECT_NEIGHBORS_1@ + col@,
            CROSS_PROJECT_NEIGHBORS_2@,
            col@ + CROSS_PROJECT_NEIGHBORS_3@ + col@ + CROSS_PROJECT_NEIGHBORS_4@,
        );
        assert(query@.sql =~= (CROSS_PROJECT_NEIGHBORS_1@ + col@ + CROSS_PROJECT_NEIGHBORS_2@ + col@) + CROSS_PROJECT_NEIGHBORS_3@ + (col@ + CROSS_PROJECT_NEIGHBORS_4@));
        lemma_within(
            query@.sql,
            CROSS_PROJECT_NEIGHBORS_1@ + col@ + CROSS_PROJECT_NEIGHBORS_2@ + col@,
            CROSS_PROJECT_NEIGHBORS_3@,
            col@ + CROSS_PROJECT_NEIGHBORS_4@,
        );
        assert(query@.sql =~= (CROSS_PROJECT_NEIGHBORS_1@ + col@ + CROSS_PROJECT_NEIGHBORS_2@ + col@ + CROSS_PROJECT_NEIGHBORS_3@ + col@) + CROSS_PROJECT_NEIGHBORS_4@);
        lemma_within(
            query@.sql,
            CROSS_PROJECT_NEIGHBORS_1@ + col@ + CROSS_PROJECT_NEIGHBORS_2@ + col@ + CROSS_PROJECT_NEIGHBORS_3@ + col@,
            CROSS_PROJECT_NEIGHBORS_4@,
            seq![],
        );
    }
    TunedQuery { settings, query }
}

pub const INSERT_SIMILARITY_PAIR_SQL: &'static str = "INSERT INTO cross_project_similarities
                (chunk_id_a, file_id_a, project_id_a, chunk_id_b, file_id_b, project_id_b,
                 chunk_similarity, path_a, path_b, project_name_a, project_name_b, language)
             VALUES ($1, $2, $3, $4, $5, $6, $7, $8, $9, $10, $11, $12)
             ON CONFLICT (chunk_id_a, chunk_id_b) DO UPDATE SET
                chunk_similarity = GREATEST(cross_project_similarities.chunk_similarity, EXCLUDED.chunk_similarity)";

/// Storing a pair; of two similarities found for it, the higher stays. The
/// caller supplies value 0, the similarity.
pub open spec fn stores_pair(p: PairView) -> StatementView {
    executes(
        INSERT_SIMILARITY_PAIR_SQL@,
        seq![
            BindView::BigInt(p.a.chunk_id),
            BindView::BigInt(p.a.file_id),
            BindView::Int(p.a.project_id),
            BindView::BigInt(p.b.chunk_id),
            BindView::BigInt(p.b.file_id),
            BindView::Int(p.b.project_id),
            BindView::Supplied(0),
            BindView::Text(p.a.path),
            BindView::Text(p.b.path),
            BindView::Text(p.a.project_name),
            BindView::Text(p.b.project_name),
            BindView::Text(p.language),
        ],
    )
}

/// Stores one pair. The caller supplies value 0, the similarity.
pub fn insert_similarity_pair(row: &SimilarityNeighborRow) -> (st: Statement)
    ensures
        st@ == stores_pair(ordered_pair(row@)),
        opens(st@.sql, "INSERT INTO cross_project_similarities"@),
        fills(
            st@,
            "INSERT INTO cross_project_similarities"@,
            "chunk_id_a"@,
            "VALUES ("@,
            BindView::BigInt(ordered_pair(row@).a.chunk_id),
        ),
        fills(
            st@,
            "INSERT INTO cross_project_similarities"@,
            "file_id_a"@,
            "VALUES ("@,
            BindView::BigInt(ordered_pair(row@).a.file_id),
        ),
        fills(
            st@,
            "INSERT INTO cross_project_similarities"@,
            "project_id_a"@,
            "VALUES ("@,
            BindView::Int(ordered_pair(row@).a.project_id),
        ),
        fills(
            st@,
            "INSERT INTO cross_project_similarities"@,
            "chunk_id_b"@,
            "VALUES ("@,
            BindView::BigInt(ordered_pair(row@).b.chunk_id),
        ),
        fills(
            st@,
            "INSERT INTO cross_project_similarities"@,
            "file_id_b"@,
            "VALUES ("@,
            BindView::BigInt(ordered_pair(row@).b.file_id),
        ),
        fills(
            st@,
            "INSERT INTO cross_project_similarities"@,
            "project_id_b"@,
            "VALUES ("@,
            BindView::Int(ordered_pair(row@).b.project_id),
        ),
        fills(
            st@,
            "INSERT INTO cross_project_similarities"@,
            "chunk_similarity"@,
            "VALUES ("@,
            BindView::Supplied(0),
        ),
        fills(
            st@,
            "INSERT INTO cross_project_similarities"@,
            "path_a"@,
            "VALUES ("@,
            BindView::Text(ordered_pair(row@).a.path),
        ),
        fills(
            st@,
            "INSERT INTO cross_project_similarities"@,
            "path_b"@,
            "VALUES ("@,
            BindView::Text(ordered_pair(row@).b.path),
        ),
        fills(
            st@,
            "INSERT INTO cross_project_similarities"@,
            "project_name_a"@,
            "VALUES ("@,
            BindView::Text(ordered_pair(row@).a.project_name),
        ),
        fills(
            st@,
            "INSERT INTO cross_project_similarities"@,
            "project_name_b"@,
            "VALUES ("@,
            BindView::Text(ordered_pair(row@).b.project_name),
        ),
        fills(
            st@,
            "INSERT INTO cross_project_similarities"@,
            "language"@,
            "VALUES ("@,
            BindView::Text(ordered_pair(row@).language),
        ),
{
    proof {
        law_stores_pair_stands_for_its_values(ordered_pair(row@));
    }
    let pair = normalize_similarity_pair(row);
    let st = Statement::execute(INSERT_SIMILARITY_PAIR_SQL)
        .int8(pair.chunk_id_a)
        .int8(pair.file_id_a)
        .int4(pair.project_id_a)
        .int8(pair.chunk_id_b)
        .int8(pair.file_id_b)
        .int4(pair.project_id_b)
        .supplied(0)
        .text(pair.path_a)
        .text(pair.path_b)
        .text(pair.project_name_a)
        .text(pair.project_name_b)
        .text(pair.language);
    assert(st@ =~= stores_pair(pair@));
    st
}

/// The statements that store pairs, one for each row and in its place.
pub open spec fn stores_pairs(rows: Seq<SimilarityNeighborRow>) -> Seq<StatementView> {
    rows.map_values(|row: SimilarityNeighborRow| stores_pair(ordered_pair(row@)))
}

/// Stores pairs, one statement for each row. The caller supplies for each
/// statement value 0, the similarity of its row.
pub fn insert_similarity_pairs(rows: &[SimilarityNeighborRow]) -> (r: Vec<Statement>)
    ensures
        statement_views(r@) == stores_pairs(rows@),
        forall|i: int| 0 <= i < r.len() ==> (#[trigger] r@[i]).fetch == Fetch::Execute,
{
    let mut out: Vec<Statement> = Vec::new();
    let mut i: usize = 0;
    while i < rows.len()
        invariant
            i <= rows.len(),
            out.len() == i,
            forall|j: int|
                0 <= j < i ==> (#[trigger] out@[j])@ == stores_pair(ordered_pair(rows@[j]@)),
        decreases rows.len() - i,
    {
        out.push(insert_similarity_pair(&rows[i]));
        i = i + 1;
    }
    assert(statement_views(out@) =~= stores_pairs(rows@));
    assert forall|i: int| 0 <= i < out.len() implies (#[trigger] out@[i]).fetch
        == Fetch::Execute by {
        assert(out@[i]@.fetch == Fetch::Execute);
    }
    out
}

pub const CLEAR_SIMILARITY_TABLE_SQL: &'static str = "TRUNCATE cross_project_similarities";

/// Removes all stored pairs.
pub fn clear_similarity_table() -> (st: Statement)
    ensures
        st@ == executes(CLEAR_SIMILARITY_TABLE_SQL@, seq![]),
        opens(st@.sql, "TRUNCATE cross_project_similarities"@),
{
    proof {
        clear_similarity_table_text();
    }
    let st = Statement::execute(CLEAR_SIMILARITY_TABLE_SQL);
    assert(st@.sql == CLEAR_SIMILARITY_TABLE_SQL@);
    st
}

pub const COUNT_SIMILARITY_PAIRS_SQL: &'static str =
    "SELECT COUNT(*) FROM cross_project_similarities";

/// How many pairs are stored.
pub fn count_similarity_pairs() -> (st: Statement)
    ensures
        st@ == fetches_one(COUNT_SIMILARITY_PAIRS_SQL@, seq![]),
        opens(st@.sql, "SELECT COUNT(*) FROM cross_project_similarities"@),
{
    proof {
        count_similarity_pairs_text();
    }
    let st = Statement::one(COUNT_SIMILARITY_PAIRS_SQL);
    assert(st@.sql == COUNT_SIMILARITY_PAIRS_SQL@);
    st
}

pub const TOP_SIMILAR_FILE_PAIRS_SQL: &'static str = "SELECT s.file_id_a, s.path_a, s.project_name_a,
                s.file_id_b, s.path_b, s.project_name_b,
                s.language,
                AVG(s.chunk_similarity) as avg_similarity,
                MAX(s.chunk_similarity) as max_similarity,
                COUNT(*) as matching_chunks
         FROM cross_project_similarities s
         GROUP BY s.file_id_a, s.path_a, s.project_name_a,
                  s.file_id_b, s.path_b, s.project_name_b, s.language
         ORDER BY avg_similarity DESC
         LIMIT $1";

/// The most similar pairs of files.
pub fn top_similar_file_pairs(limit: i32) -> (st: Statement)
    ensures
        st@ == fetches_all(TOP_SIMILAR_FILE_PAIRS_SQL@, seq![BindView::Int(limit)]),
        opens(st@.sql, "SELECT"@),
        takes(st@, "LIMIT "@, BindView::Int(limit)),
        says(st@.sql, "GROUP BY s.file_id_a, s.path_a, s.project_name_a"@),
        says(st@.sql, "ORDER BY avg_similarity DESC"@),
        says(st@.sql, "FROM cross_project_similarities"@),
{
    proof {
        top_similar_file_pairs_text();
    }
    let st = Statement::all(TOP_SIMILAR_FILE_PAIRS_SQL).int4(limit);
    assert(st@.sql == TOP_SIMILAR_FILE_PAIRS_SQL@);
    st
}

pub const MAX_CHUNK_ID_SQL: &'static str = "SELECT MAX(id) FROM file_chunks";

/// The highest chunk id; none where there is no chunk.
pub fn max_chunk_id() -> (st: Statement)
    ensures
        st@ == fetches_one(MAX_CHUNK_ID_SQL@, seq![]),
        opens(st@.sql, "SELECT"@),
        says(st@.sql, "FROM file_chunks"@),
{
    proof {
        max_chunk_id_text();
    }
    let st = Statement::one(MAX_CHUNK_ID_SQL);
    assert(st@.sql == MAX_CHUNK_ID_SQL@);
    st
}

/// The highest chunk id, or zero where there is no chunk.
pub fn max_chunk_id_or_zero(id: Option<i64>) -> (r: i64)
    ensures
        r == (match id {
            Some(n) => n,
            None => 0,
        }),
{
    match id {
        Some(n) => n,
        None => 0,
    }
}

pub const SAME_REPO_1: &'static str = "(";

pub const SAME_REPO_2: &'static str = " OR NOT EXISTS (
            SELECT 1 FROM projects pa, projects pb, indexed_files seed
            WHERE seed.id = $1
              AND pa.id = seed.project_id
              AND pb.id = (CASE WHEN s.file_id_a = $1 THEN s.project_id_b ELSE s.project_id_a END)
              AND (
                  (pa.git_common_dir IS NOT NULL AND pa.git_common_dir = pb.git_common_dir)
                  OR
                  (pa.git_root_commits IS NOT NULL AND pa.git_root_commits = pb.git_root_commits)
              )
         ))";

/// The clause that drops pairs within one repository, unless the argument
/// `flag` is set.
pub open spec fn same_repo_sql(flag: Seq<char>) -> Seq<char> {
    SAME_REPO_1@ + flag + SAME_REPO_2@
}

fn write_same_repo_sql(flag: &str) -> (r: String)
    ensures
        r@ == same_repo_sql(flag@),
{
    let mut m = String::from_str(SAME_REPO_1);
    m.append(flag);
    m.append(SAME_REPO_2);
    m
}

pub const SIMILAR_FILES_IN_PROJECT_1: &'static str = "SELECT
                CASE WHEN s.file_id_a = $1 THEN s.file_id_a ELSE s.file_id_b END as file_id_a,
                CASE WHEN s.file_id_a = $1 THEN s.path_a ELSE s.path_b END as path_a,
                CASE WHEN s.file_id_a = $1 THEN s.project_name_a ELSE s.project_name_b END as project_name_a,
                CASE WHEN s.file_id_a = $1 THEN s.file_id_b ELSE s.file_id_a END as file_id_b,
                CASE WHEN s.file_id_a = $1 THEN s.path_b ELSE s.path_a END as path_b,
                CASE WHEN s.file_id_a = $1 THEN s.project_name_b ELSE s.project_name_a END as project_name_b,
                s.language,
                AVG(s.chunk_similarity) as avg_similarity,
                MAX(s.chunk_similarity) as max_similarity,
                COUNT(*) as matching_chunks
             FROM cross_project_similarities s
             WHERE (s.file_id_a = $1 OR s.file_id_b = $1)
               AND s.chunk_similarity >= $2
               AND (CASE WHEN s.file_id_a = $1 THEN s.project_name_b ELSE s.project_name_a END) = $4
               AND ";

pub const SIMILAR_FILES_IN_PROJECT_2: &'static str = "
             GROUP BY file_id_a, path_a, project_name_a, file_id_b, path_b, project_name_b, s.language
             ORDER BY avg_similarity DESC
             LIMIT $3";

/// The query for the files of one project that are similar to a file.
pub open spec fn similar_files_in_project_sql(same_repo_filter: Seq<char>) -> Seq<char> {
    SIMILAR_FILES_IN_PROJECT_1@ + same_repo_filter + SIMILAR_FILES_IN_PROJECT_2@
}

fn write_similar_files_in_project_sql(same_repo_filter: &str) -> (r: String)
    ensures
        r@ == similar_files_in_project_sql(same_repo_filter@),
{
    let mut m = String::from_str(SIMILAR_FILES_IN_PROJECT_1);
    m.append(same_repo_filter);
    m.append(SIMILAR_FILES_IN_PROJECT_2);
    m
}

pub const SIMILAR_FILES_1: &'static str = "SELECT
                CASE WHEN s.file_id_a = $1 THEN s.file_id_a ELSE s.file_id_b END as file_id_a,
                CASE WHEN s.file_id_a = $1 THEN s.path_a ELSE s.path_b END as path_a,
                CASE WHEN s.file_id_a = $1 THEN s.project_name_a ELSE s.project_name_b END as project_name_a,
                CASE WHEN s.file_id_a = $1 THEN s.file_id_b ELSE s.file_id_a END as file_id_b,
                CASE WHEN s.file_id_a = $1 THEN s.path_b ELSE s.path_a END as path_b,
                CASE WHEN s.file_id_a = $1 THEN s.project_name_b ELSE s.project_name_a END as project_name_b,
                s.language,
                AVG(s.chunk_similarity) as avg_similarity,
                MAX(s.chunk_similarity) as max_similarity,
                COUNT(*) as matching_chunks
             FROM cross_project_similarities s
             WHERE (s.file_id_a = $1 OR s.file_id_b = $1)
               AND s.chunk_similarity >= $2
               AND ";

pub const SIMILAR_FILES_2: &'static str = "
             GROUP BY file_id_a, path_a, project_name_a, file_id_b, path_b, project_name_b, s.language
             ORDER BY avg_similarity DESC
             LIMIT $3";

/// The query for the files that are similar to a file.
pub open spec fn similar_files_sql(same_repo_filter: Seq<char>) -> Seq<char> {
    SIMILAR_FILES_1@ + same_repo_filter + SIMILAR_FILES_2@
}

fn write_similar_files_sql(same_repo_filter: &str) -> (r: String)
    ensures
        r@ == similar_files_sql(same_repo_filter@),
{
    let mut m = String::from_str(SIMILAR_FILES_1);
    m.append(same_repo_filter);
    m.append(SIMILAR_FILES_2);
    m
}

/// The query for the files that are similar to a file, optionally of one
/// project.
pub open spec fn similar_files_query(
    file_id: i64,
    limit: i32,
    target_project: Option<Seq<char>>,
    include_same_repo: bool,
) -> StatementView {
    match target_project {
        Some(p) => fetches_all(
            similar_files_in_project_sql(same_repo_sql("$5"@)),
            seq![
                BindView::BigInt(file_id),
                BindView::Supplied(0),
                BindView::Int(limit),
                BindView::Text(p),
                BindView::Bool(include_same_repo),
            ],
        ),
        None => fetches_all(
            similar_files_sql(same_repo_sql("$4"@)),
            seq![
                BindView::BigInt(file_id),
                BindView::Supplied(0),
                BindView::Int(limit),
                BindView::Bool(include_same_repo),
            ],
        ),
    }
}

/// The files that are similar to a file, optionally of one project. The
/// caller supplies value 0, the least similarity.
pub fn find_similar_files(
    file_id: i64,
    limit: i32,
    target_project: Option<&str>,
    include_same_repo: bool,
) -> (st: Statement)
    ensures
        st@ == similar_files_query(file_id, limit, opt_str(target_project), include_same_repo),
        opt_str(target_project) is Some ==> opens(st@.sql, "SELECT"@),
        opt_str(target_project) is Some ==> takes(
            st@,
            "s.file_id_a = "@,
            BindView::BigInt(file_id),
        ),
        opt_str(target_project) is Some ==> takes(
            st@,
            "s.chunk_similarity >= "@,
            BindView::Supplied(0),
        ),
        opt_str(target_project) is Some ==> takes(
            st@,
            "END) = "@,
            BindView::Text(opt_str(target_project)->0),
        ),
        opt_str(target_project) is Some ==> takes(st@, "seed.id = "@, BindView::BigInt(file_id)),
        opt_str(target_project) is Some ==> takes(st@, "LIMIT "@, BindView::Int(limit)),
        opt_str(target_project) is None ==> opens(st@.sql, "SELECT"@),
        opt_str(target_project) is None ==> takes(
            st@,
            "s.file_id_a = "@,
            BindView::BigInt(file_id),
        ),
        opt_str(target_project) is None ==> takes(
            st@,
            "s.chunk_similarity >= "@,
            BindView::Supplied(0),
        ),
        opt_str(target_project) is None ==> takes(st@, "seed.id = "@, BindView::BigInt(file_id)),
        opt_str(target_project) is None ==> takes(st@, "LIMIT "@, BindView::Int(limit)),
        takes(st@, "("@, BindView::Bool(include_same_repo)),
{
    proof {
        law_files_of_the_same_repository_need_the_flag(
            file_id,
            limit,
            opt_str(target_project),
            include_same_repo,
        );
        law_similar_files_keep_what_is_asked_for(
            file_id,
            limit,
            opt_str(target_project),
            include_same_repo,
        );
    }
    let st = match target_project {
        Some(p) => {
            let filter = write_same_repo_sql("$5");
            Statement::all(write_similar_files_in_project_sql(filter.as_str()).as_str())
                .int8(file_id)
                .supplied(0)
                .int4(limit)
                .text(p)
                .flag(include_same_repo)
        },
        None => {
            let filter = write_same_repo_sql("$4");
            Statement::all(write_similar_files_sql(filter.as_str()).as_str())
                .int8(file_id)
                .supplied(0)
                .int4(limit)
                .flag(include_same_repo)
        },
    };
    proof {
        assert(st@ == similar_files_query(
            file_id,
            limit,
            opt_str(target_project),
            include_same_repo,
        ));
    }
    st
}

pub const DUPLICATES_BY_LANGUAGE_SQL: &'static str = "SELECT s.file_id_a, s.path_a, s.project_name_a, s.project_id_a,
                    s.file_id_b, s.path_b, s.project_name_b, s.project_id_b,
                    s.language,
                    AVG(s.chunk_similarity) as avg_similarity,
                    MAX(s.chunk_similarity) as max_similarity,
                    COUNT(*) as matching_chunks
             FROM cross_project_similarities s
             WHERE s.chunk_similarity >= $1
               AND s.language = $3
               AND s.project_id_a != s.project_id_b
               AND ($4 OR NOT EXISTS (
        SELECT 1 FROM projects pa, projects pb
        WHERE pa.id = s.project_id_a
          AND pb.id = s.project_id_b
          AND (
              (pa.git_common_dir IS NOT NULL AND pa.git_common_dir = pb.git_common_dir)
              OR
              (pa.git_root_commits IS NOT NULL AND pa.git_root_commits = pb.git_root_commits)
          )
    ))
             GROUP BY s.file_id_a, s.path_a, s.project_name_a, s.project_id_a,
                      s.file_id_b, s.path_b, s.project_name_b, s.project_id_b,
                      s.language
             HAVING AVG(s.chunk_similarity) >= $1
             ORDER BY avg_similarity DESC
             LIMIT $2";

pub const DUPLICATES_SQL: &'static str = "SELECT s.file_id_a, s.path_a, s.project_name_a, s.project_id_a,
                    s.file_id_b, s.path_b, s.project_name_b, s.project_id_b,
                    s.language,
                    AVG(s.chunk_similarity) as avg_similarity,
                    MAX(s.chunk_similarity) as max_similarity,
                    COUNT(*) as matching_chunks
             FROM cross_project_similarities s
             WHERE s.chunk_similarity >= $1
               AND s.project_id_a != s.project_id_b
               AND ($3 OR NOT EXISTS (
        SELECT 1 FROM projects pa, projects pb
        WHERE pa.id = s.project_id_a
          AND pb.id = s.project_id_b
          AND (
              (pa.git_common_dir IS NOT NULL AND pa.git_common_dir = pb.git_common_dir)
              OR
              (pa.git_root_commits IS NOT NULL AND pa.git_root_commits = pb.git_root_commits)
          )
    ))
             GROUP BY s.file_id_a, s.path_a, s.project_name_a, s.project_id_a,
                      s.file_id_b, s.path_b, s.project_name_b, s.project_id_b,
                      s.language
             HAVING AVG(s.chunk_similarity) >= $1
             ORDER BY avg_similarity DESC
             LIMIT $2";

/// The query for duplicate files of different projects, optionally of one
/// language.
pub open spec fn duplicates_query(
    language: Option<Seq<char>>,
    limit: i32,
    include_same_repo: bool,
) -> StatementView {
    match language {
        Some(l) => fetches_all(
            DUPLICATES_BY_LANGUAGE_SQL@,
            seq![
                BindView::Supplied(0),
                BindView::Int(limit),
                BindView::Text(l),
                BindView::Bool(include_same_repo),
            ],
        ),
        None => fetches_all(
            DUPLICATES_SQL@,
            seq![
                BindView::Supplied(0),
                BindView::Int(limit),
                BindView::Bool(include_same_repo),
            ],
        ),
    }
}

/// Duplicate files of different projects, optionally of one language. The
/// caller supplies value 0, the least similarity.
pub fn find_duplicate_file_pairs(
    language: Option<&str>,
    limit: i32,
    include_same_repo: bool,
) -> (st: Statement)
    ensures
        st@ == duplicates_query(opt_str(language), limit, include_same_repo),
        opt_str(language) is Some ==> opens(st@.sql, "SELECT"@),
        opt_str(language) is Some ==> takes(st@, "s.chunk_similarity >= "@, BindView::Supplied(0)),
        opt_str(language) is Some ==> takes(st@, "LIMIT "@, BindView::Int(limit)),
        opt_str(language) is Some ==> takes(
            st@,
            "s.language = "@,
            BindView::Text(opt_str(language)->0),
        ),
        opt_str(language) is Some ==> takes(st@, "AND ("@, BindView::Bool(include_same_repo)),
        opt_str(language) is None ==> opens(st@.sql, "SELECT"@),
        opt_str(language) is None ==> takes(st@, "s.chunk_similarity >= "@, BindView::Supplied(0)),
        opt_str(language) is None ==> takes(st@, "LIMIT "@, BindView::Int(limit)),
        opt_str(language) is None ==> takes(st@, "AND ("@, BindView::Bool(include_same_repo)),
{
    proof {
        law_duplicates_are_of_the_language(opt_str(language), limit, include_same_repo);
    }
    let st = match language {
        Some(l) => Statement::all(DUPLICATES_BY_LANGUAGE_SQL)
            .supplied(0)
            .int4(limit)
            .text(l)
            .flag(include_same_repo),
        None => Statement::all(DUPLICATES_SQL).supplied(0).int4(limit).flag(include_same_repo),
    };
    proof {
        assert(st@ == duplicates_query(opt_str(language), limit, include_same_repo));
    }
    st
}

pub const FIND_CHUNK_SIMILARITY_PAIRS_SQL: &'static str = "SELECT s.chunk_id_a, s.chunk_id_b,
                s.file_id_a, s.file_id_b,
                s.path_a, s.path_b,
                s.project_id_a, s.project_id_b,
                s.project_name_a, s.project_name_b,
                s.language,
                s.chunk_similarity AS similarity
         FROM cross_project_similarities s
         WHERE s.chunk_similarity >= $1
           AND s.project_id_a != s.project_id_b
           AND ($2::text IS NULL OR s.language = $2)
           AND (cardinality($3::int[]) = 0
                OR (s.project_id_a = ANY($3) AND s.project_id_b = ANY($3)))
           AND ($4::text IS NULL OR s.project_name_a = $4 OR s.project_name_b = $4)
           AND ($5 OR NOT EXISTS (
                   SELECT 1 FROM projects pa, projects pb
                   WHERE pa.id = s.project_id_a
                     AND pb.id = s.project_id_b
                     AND ((pa.git_common_dir IS NOT NULL AND pa.git_common_dir = pb.git_common_dir)
                          OR (pa.git_root_commits IS NOT NULL AND pa.git_root_commits = pb.git_root_commits))
                ))
         ORDER BY s.chunk_similarity DESC, s.chunk_id_a ASC, s.chunk_id_b ASC
         LIMIT $6";

/// Stored pairs of chunks, optionally of one language or project, or only
/// between given projects, where any are given. The caller supplies value 0,
/// `min_similarity`.
pub fn find_chunk_similarity_pairs(
    language: Option<&str>,
    main_ids: &[i32],
    project: Option<&str>,
    include_same_repo: bool,
    limit: i32,
) -> (st: Statement)
    ensures
        st@ == fetches_all(
            FIND_CHUNK_SIMILARITY_PAIRS_SQL@,
            seq![
                BindView::Supplied(0),
                BindView::OptText(opt_str(language)),
                BindView::IntArray(main_ids@),
                BindView::OptText(opt_str(project)),
                BindView::Bool(include_same_repo),
                BindView::Int(limit),
            ],
        ),
        opens(st@.sql, "SELECT"@),
        takes(st@, "s.chunk_similarity >= "@, BindView::Supplied(0)),
        takes(st@, "s.language = "@, BindView::OptText(opt_str(language))),
        takes(st@, "s.project_id_a = ANY("@, BindView::IntArray(main_ids@)),
        takes(st@, "s.project_name_a = "@, BindView::OptText(opt_str(project))),
        takes(st@, "AND ("@, BindView::Bool(include_same_repo)),
        takes(st@, "LIMIT "@, BindView::Int(limit)),
        says(st@.sql, "AND s.project_id_a != s.project_id_b"@),
        says(st@.sql, "WHERE pa.id = s.project_id_a"@),
        says(st@.sql, "AND pb.id = s.project_id_b"@),
        says(st@.sql, "ORDER BY s.chunk_similarity DESC, s.chunk_id_a ASC, s.chunk_id_b ASC"@),
        says(st@.sql, "FROM cross_project_similarities"@),
{
    proof {
        find_chunk_similarity_pairs_text();
    }
    let st = Statement::all(FIND_CHUNK_SIMILARITY_PAIRS_SQL)
        .supplied(0)
        .opt_text(language)
        .int4s(main_ids)
        .opt_text(project)
        .flag(include_same_repo)
        .int4(limit);
    assert(st@.sql == FIND_CHUNK_SIMILARITY_PAIRS_SQL@);
    st
}

pub const FIND_PATTERN_ABSTRACTION_PAIRS_SQL: &'static str = "SELECT s.chunk_id_a, s.chunk_id_b,
                s.file_id_a, s.file_id_b,
                s.path_a, s.path_b,
                s.project_id_a, s.project_id_b,
                s.project_name_a, s.project_name_b,
                s.language,
                s.chunk_similarity AS similarity,
                cta_a.topic_id,
                ct.label AS topic_label,
                ct.keywords AS topic_keywords,
                cta_a.membership_score AS membership_a,
                cta_b.membership_score AS membership_b
         FROM cross_project_similarities s
         JOIN chunk_topic_assignments cta_a ON cta_a.chunk_id = s.chunk_id_a
         JOIN chunk_topic_assignments cta_b ON cta_b.chunk_id = s.chunk_id_b
                                            AND cta_b.topic_id = cta_a.topic_id
         JOIN code_topics ct ON ct.id = cta_a.topic_id
         WHERE s.chunk_similarity >= $1 AND s.chunk_similarity < $2
           AND s.project_id_a != s.project_id_b
           AND cta_a.membership_score >= $3
           AND cta_b.membership_score >= $3
           AND ($4::text IS NULL OR s.language = $4)
           AND (cardinality($5::int[]) = 0
                OR (s.project_id_a = ANY($5) AND s.project_id_b = ANY($5)))
           AND ($6::text IS NULL OR s.project_name_a = $6 OR s.project_name_b = $6)
           AND ($7 OR NOT EXISTS (
                   SELECT 1 FROM projects pa, projects pb
                   WHERE pa.id = s.project_id_a
                     AND pb.id = s.project_id_b
                     AND ((pa.git_common_dir IS NOT NULL AND pa.git_common_dir = pb.git_common_dir)
                          OR (pa.git_root_commits IS NOT NULL AND pa.git_root_commits = pb.git_root_commits))
                ))
         ORDER BY cta_a.topic_id, s.chunk_similarity DESC, s.chunk_id_a ASC, s.chunk_id_b ASC
         LIMIT $8";

/// Stored pairs of chunks of middling similarity that share a topic, optionally
/// of one language or project, or only between given projects, where any are
/// given. The caller supplies value 0, `min_similarity`, value 1,
/// `max_similarity`, value 2, `min_membership`.
pub fn find_pattern_abstraction_pairs(
    language: Option<&str>,
    main_ids: &[i32],
    project: Option<&str>,
    include_same_repo: bool,
    limit: i32,
) -> (st: Statement)
    ensures
        st@ == fetches_all(
            FIND_PATTERN_ABSTRACTION_PAIRS_SQL@,
            seq![
                BindView::Supplied(0),
                BindView::Supplied(1),
                BindView::Supplied(2),
                BindView::OptText(opt_str(language)),
                BindView::IntArray(main_ids@),
                BindView::OptText(opt_str(project)),
                BindView::Bool(include_same_repo),
                BindView::Int(limit),
            ],
        ),
        opens(st@.sql, "SELECT"@),
        takes(st@, "s.chunk_similarity >= "@, BindView::Supplied(0)),
        takes(st@, "s.chunk_similarity < "@, BindView::Supplied(1)),
        takes(st@, "cta_a.membership_score >= "@, BindView::Supplied(2)),
        takes(st@, "s.language = "@, BindView::OptText(opt_str(language))),
        takes(st@, "s.project_id_a = ANY("@, BindView::IntArray(main_ids@)),
        takes(st@, "s.project_name_a = "@, BindView::OptText(opt_str(project))),
        takes(st@, "AND ("@, BindView::Bool(include_same_repo)),
        takes(st@, "LIMIT "@, BindView::Int(limit)),
        says(st@.sql, "AND cta_b.topic_id = cta_a.topic_id"@),
        says(st@.sql, "AND s.project_id_a != s.project_id_b"@),
        says(st@.sql, "WHERE pa.id = s.project_id_a"@),
        says(st@.sql, "AND pb.id = s.project_id_b"@),
        says(
            st@.sql,
            "ORDER BY cta_a.topic_id, s.chunk_similarity DESC, s.chunk_id_a ASC, s.chunk_id_b ASC"@,
        ),
        says(st@.sql, "FROM cross_project_similarities"@),
{
    proof {
        find_pattern_abstraction_pairs_text();
    }
    let st = Statement::all(FIND_PATTERN_ABSTRACTION_PAIRS_SQL)
        .supplied(0)
        .supplied(1)
        .supplied(2)
        .opt_text(language)
        .int4s(main_ids)
        .opt_text(project)
        .flag(include_same_repo)
        .int4(limit);
    assert(st@.sql == FIND_PATTERN_ABSTRACTION_PAIRS_SQL@);
    st
}

} // verus!
