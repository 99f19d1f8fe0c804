//! What the statements of `chunks` say.
use vstd::prelude::*;

use crate::meaning::{
    ends_plainly, fills, item, lemma_within, lined_up_at, lines_up, mentions, opens, part_at, past,
    past_blanks, says, takes,
};
use crate::queries::chunks::{
    all_embeddings_sql, best_chunk_sql, embeddings_of_language_sql, project_embeddings_sql,
    project_language_embeddings_sql, rerank_sql, stores_chunk, ChunkView, ReplacementView,
    ALL_EMBEDDINGS_1, ALL_EMBEDDINGS_2, ALL_EMBEDDINGS_3, BATCH_INSERT_CHUNK_SQL, BEST_CHUNK_1,
    BEST_CHUNK_2, BEST_CHUNK_3, BEST_CHUNK_4, EMBEDDINGS_OF_LANGUAGE_1, EMBEDDINGS_OF_LANGUAGE_2,
    EMBEDDINGS_OF_LANGUAGE_3, FILE_CHUNK_SUMMARY_SQL, GET_CHUNKS_IN_INDEX_RANGE_SQL,
    GET_CHUNKS_NEEDING_CONTEXT_SQL, GET_CHUNK_CONTENT_ROWS_SQL, GET_CHUNK_TOPIC_SUMMARIES_SQL,
    GET_FILE_REGION_BY_LINES_SQL, INSERT_CHUNK_SQL, PROJECT_EMBEDDINGS_1, PROJECT_EMBEDDINGS_2,
    PROJECT_EMBEDDINGS_3, PROJECT_LANGUAGE_EMBEDDINGS_1, PROJECT_LANGUAGE_EMBEDDINGS_2,
    PROJECT_LANGUAGE_EMBEDDINGS_3, REPLACE_DELETE_CHUNKS_SQL, REPLACE_FILE_SQL,
    REPLACE_FINALIZE_SQL, REPLACE_INSERT_CHUNK_SQL, RERANK_1, RERANK_2,
};
use crate::statement::{fetches_all, BindView, StatementView};

verus! {

/// What the text of [`REPLACE_FILE_SQL`] says.
#[verifier::rlimit(50)]
pub proof fn replace_file_text()
    ensures
        opens(REPLACE_FILE_SQL@, "INSERT INTO indexed_files"@),
        lines_up(REPLACE_FILE_SQL@, "INSERT INTO indexed_files"@, "project_id"@, "VALUES ("@, 1),
        lines_up(REPLACE_FILE_SQL@, "INSERT INTO indexed_files"@, "path"@, "VALUES ("@, 2),
        lines_up(REPLACE_FILE_SQL@, "INSERT INTO indexed_files"@, "relative_path"@, "VALUES ("@, 3),
        lines_up(REPLACE_FILE_SQL@, "INSERT INTO indexed_files"@, "language"@, "VALUES ("@, 4),
        lines_up(REPLACE_FILE_SQL@, "INSERT INTO indexed_files"@, "size_bytes"@, "VALUES ("@, 5),
        lines_up(REPLACE_FILE_SQL@, "INSERT INTO indexed_files"@, "content"@, "VALUES ("@, 6),
        lines_up(REPLACE_FILE_SQL@, "INSERT INTO indexed_files"@, "content_hash"@, "VALUES ("@, 7),
        lines_up(REPLACE_FILE_SQL@, "INSERT INTO indexed_files"@, "line_count"@, "VALUES ("@, 8),
        lines_up(REPLACE_FILE_SQL@, "INSERT INTO indexed_files"@, "truncated"@, "VALUES ("@, 9),
        lines_up(
            REPLACE_FILE_SQL@,
            "INSERT INTO indexed_files"@,
            "content_recoverable_from_disk"@,
            "VALUES ("@,
            10,
        ),
        lines_up(REPLACE_FILE_SQL@, "INSERT INTO indexed_files"@, "modified_at"@, "VALUES ("@, 11),
        says(REPLACE_FILE_SQL@, "ON CONFLICT (path) DO UPDATE SET"@),
        says(REPLACE_FILE_SQL@, "project_id = EXCLUDED.project_id"@),
        says(REPLACE_FILE_SQL@, "relative_path = EXCLUDED.relative_path"@),
        says(REPLACE_FILE_SQL@, "language = EXCLUDED.language"@),
        says(REPLACE_FILE_SQL@, "size_bytes = EXCLUDED.size_bytes"@),
        says(REPLACE_FILE_SQL@, "content = EXCLUDED.content"@),
        says(REPLACE_FILE_SQL@, "content_hash = EXCLUDED.content_hash"@),
        says(REPLACE_FILE_SQL@, "line_count = EXCLUDED.line_count"@),
        says(REPLACE_FILE_SQL@, "truncated = EXCLUDED.truncated"@),
        says(
            REPLACE_FILE_SQL@,
            "content_recoverable_from_disk = EXCLUDED.content_recoverable_from_disk"@,
        ),
        says(REPLACE_FILE_SQL@, "modified_at = EXCLUDED.modified_at"@),
{
    reveal_strlit(
        "INSERT INTO indexed_files
                (project_id, path, relative_path, language, size_bytes, content,
                 content_hash, line_count, truncated, content_recoverable_from_disk,
                 modified_at)
             VALUES ($1, $2, $3, $4, $5, $6, $7, $8, $9, $10, $11)
             ON CONFLICT (path) DO UPDATE SET
                project_id = EXCLUDED.project_id,
                relative_path = EXCLUDED.relative_path,
                language = EXCLUDED.language,
                size_bytes = EXCLUDED.size_bytes,
                content = EXCLUDED.content,
                content_hash = EXCLUDED.content_hash,
                line_count = EXCLUDED.line_count,
                truncated = EXCLUDED.truncated,
                content_recoverable_from_disk = EXCLUDED.content_recoverable_from_disk,
                modified_at = EXCLUDED.modified_at,
                indexed_at = NOW()
             RETURNING id",
    );
    reveal_strlit("INSERT INTO indexed_files");
    reveal_strlit("ON CONFLICT (path) DO UPDATE SET");
    reveal_strlit("VALUES (");
    reveal_strlit("content");
    reveal_strlit("content = EXCLUDED.content");
    reveal_strlit("content_hash");
    reveal_strlit("content_hash = EXCLUDED.content_hash");
    reveal_strlit("content_recoverable_from_disk");
    reveal_strlit("content_recoverable_from_disk = EXCLUDED.content_recoverable_from_disk");
    reveal_strlit("language");
    reveal_strlit("language = EXCLUDED.language");
    reveal_strlit("line_count");
    reveal_strlit("line_count = EXCLUDED.line_count");
    reveal_strlit("modified_at");
    reveal_strlit("modified_at = EXCLUDED.modified_at");
    reveal_strlit("path");
    reveal_strlit("project_id");
    reveal_strlit("project_id = EXCLUDED.project_id");
    reveal_strlit("relative_path");
    reveal_strlit("relative_path = EXCLUDED.relative_path");
    reveal_strlit("size_bytes");
    reveal_strlit("size_bytes = EXCLUDED.size_bytes");
    reveal_strlit("truncated");
    reveal_strlit("truncated = EXCLUDED.truncated");
    let t = REPLACE_FILE_SQL@;
    assert(part_at(t, 0, "INSERT INTO indexed_files"@));
    reveal_with_fuel(past, 31);
    reveal_with_fuel(past_blanks, 19);
    assert(past(t, 25, '(') == 43);
    assert(item(t, 43, 0) == 43);
    assert(item(t, 43, 1) == 55);
    assert(item(t, 43, 2) == 61);
    assert(item(t, 43, 3) == 76);
    assert(item(t, 43, 4) == 86);
    assert(item(t, 43, 5) == 98);
    assert(item(t, 43, 6) == 124);
    assert(item(t, 43, 7) == 138);
    assert(item(t, 43, 8) == 150);
    assert(item(t, 43, 9) == 161);
    assert(item(t, 43, 10) == 209);
    assert(item(t, 243, 0) == 243);
    assert(item(t, 243, 1) == 247);
    assert(item(t, 243, 2) == 251);
    assert(item(t, 243, 3) == 255);
    assert(item(t, 243, 4) == 259);
    assert(item(t, 243, 5) == 263);
    assert(item(t, 243, 6) == 267);
    assert(item(t, 243, 7) == 271);
    assert(item(t, 243, 8) == 275);
    assert(item(t, 243, 9) == 279);
    assert(item(t, 243, 10) == 284);
    assert(lined_up_at(t, "INSERT INTO indexed_files"@, "project_id"@, "VALUES ("@, 1, 0, 235, 0));
    assert(lined_up_at(t, "INSERT INTO indexed_files"@, "path"@, "VALUES ("@, 2, 0, 235, 1));
    assert(lined_up_at(
        t,
        "INSERT INTO indexed_files"@,
        "relative_path"@,
        "VALUES ("@,
        3,
        0,
        235,
        2,
    ));
    assert(lined_up_at(t, "INSERT INTO indexed_files"@, "language"@, "VALUES ("@, 4, 0, 235, 3));
    assert(lined_up_at(t, "INSERT INTO indexed_files"@, "size_bytes"@, "VALUES ("@, 5, 0, 235, 4));
    assert(lined_up_at(t, "INSERT INTO indexed_files"@, "content"@, "VALUES ("@, 6, 0, 235, 5));
    assert(lined_up_at(
        t,
        "INSERT INTO indexed_files"@,
        "content_hash"@,
        "VALUES ("@,
        7,
        0,
        235,
        6,
    ));
    assert(lined_up_at(t, "INSERT INTO indexed_files"@, "line_count"@, "VALUES ("@, 8, 0, 235, 7));
    assert(lined_up_at(t, "INSERT INTO indexed_files"@, "truncated"@, "VALUES ("@, 9, 0, 235, 8));
    assert(lined_up_at(
        t,
        "INSERT INTO indexed_files"@,
        "content_recoverable_from_disk"@,
        "VALUES ("@,
        10,
        0,
        235,
        9,
    ));
    assert(lined_up_at(
        t,
        "INSERT INTO indexed_files"@,
        "modified_at"@,
        "VALUES ("@,
        11,
        0,
        235,
        10,
    ));
    assert(part_at(t, 302, "ON CONFLICT (path) DO UPDATE SET"@));
    assert(part_at(t, 351, "project_id = EXCLUDED.project_id"@));
    assert(part_at(t, 401, "relative_path = EXCLUDED.relative_path"@));
    assert(part_at(t, 457, "language = EXCLUDED.language"@));
    assert(part_at(t, 503, "size_bytes = EXCLUDED.size_bytes"@));
    assert(part_at(t, 553, "content = EXCLUDED.content"@));
    assert(part_at(t, 597, "content_hash = EXCLUDED.content_hash"@));
    assert(part_at(t, 651, "line_count = EXCLUDED.line_count"@));
    assert(part_at(t, 701, "truncated = EXCLUDED.truncated"@));
    assert(part_at(
        t,
        749,
        "content_recoverable_from_disk = EXCLUDED.content_recoverable_from_disk"@,
    ));
    assert(part_at(t, 837, "modified_at = EXCLUDED.modified_at"@));
}

/// What the text of [`REPLACE_DELETE_CHUNKS_SQL`] says.
pub proof fn replace_delete_chunks_text()
    ensures
        opens(REPLACE_DELETE_CHUNKS_SQL@, "DELETE FROM file_chunks"@),
        mentions(REPLACE_DELETE_CHUNKS_SQL@, "file_id = "@, 1),
{
    reveal_strlit(
        "DELETE FROM file_chunks WHERE file_id = $1",
    );
    reveal_strlit("DELETE FROM file_chunks");
    reveal_strlit("file_id = ");
    let t = REPLACE_DELETE_CHUNKS_SQL@;
    assert(part_at(t, 0, "DELETE FROM file_chunks"@));
    assert(part_at(t, 30, "file_id = "@));
}

/// What the text of [`REPLACE_FINALIZE_SQL`] says.
pub proof fn replace_finalize_text()
    ensures
        opens(REPLACE_FINALIZE_SQL@, "UPDATE indexed_files"@),
        mentions(REPLACE_FINALIZE_SQL@, "content_hash = "@, 1),
        mentions(REPLACE_FINALIZE_SQL@, "$1 WHERE id = "@, 2),
{
    reveal_strlit(
        "UPDATE indexed_files SET content_hash = $1 WHERE id = $2",
    );
    reveal_strlit("$1 WHERE id = ");
    reveal_strlit("UPDATE indexed_files");
    reveal_strlit("content_hash = ");
    let t = REPLACE_FINALIZE_SQL@;
    assert(part_at(t, 0, "UPDATE indexed_files"@));
    assert(part_at(t, 25, "content_hash = "@));
    assert(part_at(t, 40, "$1 WHERE id = "@));
}

/// What the text of [`GET_CHUNKS_NEEDING_CONTEXT_SQL`] says.
#[verifier::rlimit(50)]
pub proof fn get_chunks_needing_context_text()
    ensures
        opens(GET_CHUNKS_NEEDING_CONTEXT_SQL@, "SELECT"@),
        mentions(GET_CHUNKS_NEEDING_CONTEXT_SQL@, "LIMIT "@, 1),
        says(GET_CHUNKS_NEEDING_CONTEXT_SQL@, "WHERE fs.file_id = c.file_id"@),
        says(GET_CHUNKS_NEEDING_CONTEXT_SQL@, "AND fs.start_line <= c.start_line"@),
        says(GET_CHUNKS_NEEDING_CONTEXT_SQL@, "AND fs.end_line >= c.end_line"@),
        says(
            GET_CHUNKS_NEEDING_CONTEXT_SQL@,
            "WHERE e.target_file_id = c.file_id AND e.edge_type = 'import'"@,
        ),
        says(
            GET_CHUNKS_NEEDING_CONTEXT_SQL@,
            "WHERE c.contextual_text IS NULL AND c.embedding_v2 IS NOT NULL"@,
        ),
        says(GET_CHUNKS_NEEDING_CONTEXT_SQL@, "ORDER BY fs.start_line DESC, fs.end_line ASC"@),
        says(GET_CHUNKS_NEEDING_CONTEXT_SQL@, "ORDER BY c.id"@),
        says(GET_CHUNKS_NEEDING_CONTEXT_SQL@, "FROM file_chunks"@),
        says(GET_CHUNKS_NEEDING_CONTEXT_SQL@, "JOIN indexed_files f ON f.id = c.file_id"@),
        says(GET_CHUNKS_NEEDING_CONTEXT_SQL@, "LEFT JOIN LATERAL ("@),
{
    reveal_strlit(
        "SELECT c.id, c.content, f.relative_path, f.language,
                sym.kind AS symbol_kind, sym.name AS symbol_name,
                sym.signature AS symbol_signature,
                COALESCE(imp.cnt, 0) AS importer_count
         FROM file_chunks c
         JOIN indexed_files f ON f.id = c.file_id
         LEFT JOIN LATERAL (
             SELECT fs.kind, fs.name, fs.signature
             FROM file_symbols fs
             WHERE fs.file_id = c.file_id
               AND fs.start_line <= c.start_line
               AND fs.end_line >= c.end_line
               AND fs.kind IN ('function','method','class','struct','impl','trait','interface','enum','module')
             ORDER BY fs.start_line DESC, fs.end_line ASC
             LIMIT 1
         ) sym ON true
         LEFT JOIN LATERAL (
             SELECT COUNT(*) AS cnt
             FROM code_graph_edges e
             WHERE e.target_file_id = c.file_id AND e.edge_type = 'import'
         ) imp ON true
         WHERE c.contextual_text IS NULL AND c.embedding_v2 IS NOT NULL
         ORDER BY c.id
         LIMIT $1
         FOR UPDATE OF c SKIP LOCKED",
    );
    reveal_strlit("AND fs.end_line >= c.end_line");
    reveal_strlit("AND fs.start_line <= c.start_line");
    reveal_strlit("FROM file_chunks");
    reveal_strlit("JOIN indexed_files f ON f.id = c.file_id");
    reveal_strlit("LEFT JOIN LATERAL (");
    reveal_strlit("LIMIT ");
    reveal_strlit("ORDER BY c.id");
    reveal_strlit("ORDER BY fs.start_line DESC, fs.end_line ASC");
    reveal_strlit("SELECT");
    reveal_strlit("WHERE c.contextual_text IS NULL AND c.embedding_v2 IS NOT NULL");
    reveal_strlit("WHERE e.target_file_id = c.file_id AND e.edge_type = 'import'");
    reveal_strlit("WHERE fs.file_id = c.file_id");
    let t = GET_CHUNKS_NEEDING_CONTEXT_SQL@;
    assert(part_at(t, 0, "SELECT"@));
    assert(part_at(t, 1071, "LIMIT "@));
    assert(part_at(t, 430, "WHERE fs.file_id = c.file_id"@));
    assert(part_at(t, 474, "AND fs.start_line <= c.start_line"@));
    assert(part_at(t, 523, "AND fs.end_line >= c.end_line"@));
    assert(part_at(t, 882, "WHERE e.target_file_id = c.file_id AND e.edge_type = 'import'"@));
    assert(part_at(t, 976, "WHERE c.contextual_text IS NULL AND c.embedding_v2 IS NOT NULL"@));
    assert(part_at(t, 678, "ORDER BY fs.start_line DESC, fs.end_line ASC"@));
    assert(part_at(t, 1048, "ORDER BY c.id"@));
    assert(part_at(t, 234, "FROM file_chunks"@));
    assert(part_at(t, 262, "JOIN indexed_files f ON f.id = c.file_id"@));
    assert(part_at(t, 312, "LEFT JOIN LATERAL ("@));
}

/// What the text of [`GET_CHUNK_CONTENT_ROWS_SQL`] says.
pub proof fn get_chunk_content_rows_text()
    ensures
        opens(GET_CHUNK_CONTENT_ROWS_SQL@, "SELECT"@),
        mentions(GET_CHUNK_CONTENT_ROWS_SQL@, "id = ANY("@, 1),
        says(GET_CHUNK_CONTENT_ROWS_SQL@, "FROM file_chunks"@),
{
    reveal_strlit(
        "SELECT id AS chunk_id, file_id, start_line, end_line, content
         FROM file_chunks
         WHERE id = ANY($1)",
    );
    reveal_strlit("FROM file_chunks");
    reveal_strlit("SELECT");
    reveal_strlit("id = ANY(");
    let t = GET_CHUNK_CONTENT_ROWS_SQL@;
    assert(part_at(t, 0, "SELECT"@));
    assert(part_at(t, 103, "id = ANY("@));
    assert(part_at(t, 71, "FROM file_chunks"@));
}

/// What the text of [`GET_FILE_REGION_BY_LINES_SQL`] says.
pub proof fn get_file_region_by_lines_text()
    ensures
        opens(GET_FILE_REGION_BY_LINES_SQL@, "SELECT"@),
        mentions(GET_FILE_REGION_BY_LINES_SQL@, "f.path = "@, 1),
        mentions(GET_FILE_REGION_BY_LINES_SQL@, "AND c.end_line   >= "@, 2),
        mentions(GET_FILE_REGION_BY_LINES_SQL@, "c.start_line <= "@, 3),
        says(GET_FILE_REGION_BY_LINES_SQL@, "ORDER BY c.chunk_index"@),
        says(GET_FILE_REGION_BY_LINES_SQL@, "FROM file_chunks"@),
        says(
            GET_FILE_REGION_BY_LINES_SQL@,
            "JOIN indexed_files f ON c.file_id = COALESCE(f.duplicate_of_file_id, f.id)"@,
        ),
{
    reveal_strlit(
        "SELECT c.chunk_index, c.start_line, c.end_line, c.content
         FROM file_chunks c
         JOIN indexed_files f ON c.file_id = COALESCE(f.duplicate_of_file_id, f.id)
         WHERE f.path = $1
           AND c.start_line <= $3
           AND c.end_line   >= $2
         ORDER BY c.chunk_index",
    );
    reveal_strlit("AND c.end_line   >= ");
    reveal_strlit("FROM file_chunks");
    reveal_strlit("JOIN indexed_files f ON c.file_id = COALESCE(f.duplicate_of_file_id, f.id)");
    reveal_strlit("ORDER BY c.chunk_index");
    reveal_strlit("SELECT");
    reveal_strlit("c.start_line <= ");
    reveal_strlit("f.path = ");
    let t = GET_FILE_REGION_BY_LINES_SQL@;
    assert(part_at(t, 0, "SELECT"@));
    assert(part_at(t, 185, "f.path = "@));
    assert(part_at(t, 242, "AND c.end_line   >= "@));
    assert(part_at(t, 212, "c.start_line <= "@));
    assert(part_at(t, 274, "ORDER BY c.chunk_index"@));
    assert(part_at(t, 67, "FROM file_chunks"@));
    assert(part_at(
        t,
        95,
        "JOIN indexed_files f ON c.file_id = COALESCE(f.duplicate_of_file_id, f.id)"@,
    ));
}

/// What the text of [`GET_CHUNKS_IN_INDEX_RANGE_SQL`] says.
pub proof fn get_chunks_in_index_range_text()
    ensures
        opens(GET_CHUNKS_IN_INDEX_RANGE_SQL@, "SELECT"@),
        mentions(GET_CHUNKS_IN_INDEX_RANGE_SQL@, "f.path = "@, 1),
        mentions(GET_CHUNKS_IN_INDEX_RANGE_SQL@, "c.chunk_index >= "@, 2),
        mentions(GET_CHUNKS_IN_INDEX_RANGE_SQL@, "c.chunk_index <= "@, 3),
        says(GET_CHUNKS_IN_INDEX_RANGE_SQL@, "ORDER BY c.chunk_index"@),
        says(GET_CHUNKS_IN_INDEX_RANGE_SQL@, "FROM file_chunks"@),
        says(
            GET_CHUNKS_IN_INDEX_RANGE_SQL@,
            "JOIN indexed_files f ON c.file_id = COALESCE(f.duplicate_of_file_id, f.id)"@,
        ),
{
    reveal_strlit(
        "SELECT c.chunk_index, c.start_line, c.end_line, c.content
         FROM file_chunks c
         JOIN indexed_files f ON c.file_id = COALESCE(f.duplicate_of_file_id, f.id)
         WHERE f.path = $1
           AND c.chunk_index >= $2
           AND c.chunk_index <= $3
         ORDER BY c.chunk_index",
    );
    reveal_strlit("FROM file_chunks");
    reveal_strlit("JOIN indexed_files f ON c.file_id = COALESCE(f.duplicate_of_file_id, f.id)");
    reveal_strlit("ORDER BY c.chunk_index");
    reveal_strlit("SELECT");
    reveal_strlit("c.chunk_index <= ");
    reveal_strlit("c.chunk_index >= ");
    reveal_strlit("f.path = ");
    let t = GET_CHUNKS_IN_INDEX_RANGE_SQL@;
    assert(part_at(t, 0, "SELECT"@));
    assert(part_at(t, 185, "f.path = "@));
    assert(part_at(t, 212, "c.chunk_index >= "@));
    assert(part_at(t, 247, "c.chunk_index <= "@));
    assert(part_at(t, 276, "ORDER BY c.chunk_index"@));
    assert(part_at(t, 67, "FROM file_chunks"@));
    assert(part_at(
        t,
        95,
        "JOIN indexed_files f ON c.file_id = COALESCE(f.duplicate_of_file_id, f.id)"@,
    ));
}

/// What the text of [`FILE_CHUNK_SUMMARY_SQL`] says.
pub proof fn file_chunk_summary_text()
    ensures
        opens(FILE_CHUNK_SUMMARY_SQL@, "SELECT"@),
        mentions(FILE_CHUNK_SUMMARY_SQL@, "f.path = "@, 1),
        says(FILE_CHUNK_SUMMARY_SQL@, "FROM file_chunks"@),
        says(
            FILE_CHUNK_SUMMARY_SQL@,
            "JOIN indexed_files f ON c.file_id = COALESCE(f.duplicate_of_file_id, f.id)"@,
        ),
{
    reveal_strlit(
        "SELECT
            COUNT(*)::int AS chunk_count,
            MIN(c.start_line) AS first_chunk_line,
            MAX(c.end_line) AS last_chunk_line
         FROM file_chunks c
         JOIN indexed_files f ON c.file_id = COALESCE(f.duplicate_of_file_id, f.id)
         WHERE f.path = $1",
    );
    reveal_strlit("FROM file_chunks");
    reveal_strlit("JOIN indexed_files f ON c.file_id = COALESCE(f.duplicate_of_file_id, f.id)");
    reveal_strlit("SELECT");
    reveal_strlit("f.path = ");
    let t = FILE_CHUNK_SUMMARY_SQL@;
    assert(part_at(t, 0, "SELECT"@));
    assert(part_at(t, 274, "f.path = "@));
    assert(part_at(t, 156, "FROM file_chunks"@));
    assert(part_at(
        t,
        184,
        "JOIN indexed_files f ON c.file_id = COALESCE(f.duplicate_of_file_id, f.id)"@,
    ));
}

/// What the text of [`GET_CHUNK_TOPIC_SUMMARIES_SQL`] says.
pub proof fn get_chunk_topic_summaries_text()
    ensures
        opens(GET_CHUNK_TOPIC_SUMMARIES_SQL@, "SELECT"@),
        mentions(GET_CHUNK_TOPIC_SUMMARIES_SQL@, "cta.chunk_id = ANY("@, 1),
        says(GET_CHUNK_TOPIC_SUMMARIES_SQL@, "AND cta.membership_score >= 0.05"@),
        says(GET_CHUNK_TOPIC_SUMMARIES_SQL@, "ORDER BY cta.chunk_id, cta.membership_score DESC"@),
        says(GET_CHUNK_TOPIC_SUMMARIES_SQL@, "FROM chunk_topic_assignments"@),
        says(GET_CHUNK_TOPIC_SUMMARIES_SQL@, "JOIN code_topics ct ON ct.id = cta.topic_id"@),
{
    reveal_strlit(
        "SELECT cta.chunk_id, ct.id::bigint AS topic_id, ct.label, ct.keywords, cta.membership_score
         FROM chunk_topic_assignments cta
         JOIN code_topics ct ON ct.id = cta.topic_id
         WHERE cta.chunk_id = ANY($1)
           AND cta.membership_score >= 0.05
         ORDER BY cta.chunk_id, cta.membership_score DESC",
    );
    reveal_strlit("AND cta.membership_score >= 0.05");
    reveal_strlit("FROM chunk_topic_assignments");
    reveal_strlit("JOIN code_topics ct ON ct.id = cta.topic_id");
    reveal_strlit("ORDER BY cta.chunk_id, cta.membership_score DESC");
    reveal_strlit("SELECT");
    reveal_strlit("cta.chunk_id = ANY(");
    let t = GET_CHUNK_TOPIC_SUMMARIES_SQL@;
    assert(part_at(t, 0, "SELECT"@));
    assert(part_at(t, 202, "cta.chunk_id = ANY("@));
    assert(part_at(t, 236, "AND cta.membership_score >= 0.05"@));
    assert(part_at(t, 278, "ORDER BY cta.chunk_id, cta.membership_score DESC"@));
    assert(part_at(t, 101, "FROM chunk_topic_assignments"@));
    assert(part_at(t, 143, "JOIN code_topics ct ON ct.id = cta.topic_id"@));
}

/// What the text of [`INSERT_CHUNK_SQL`] says.
pub proof fn insert_chunk_text()
    ensures
        opens(INSERT_CHUNK_SQL@, "INSERT INTO file_chunks"@),
        lines_up(INSERT_CHUNK_SQL@, "INSERT INTO file_chunks"@, "file_id"@, "VALUES ("@, 1),
        lines_up(INSERT_CHUNK_SQL@, "INSERT INTO file_chunks"@, "chunk_index"@, "VALUES ("@, 2),
        lines_up(INSERT_CHUNK_SQL@, "INSERT INTO file_chunks"@, "content"@, "VALUES ("@, 3),
        lines_up(INSERT_CHUNK_SQL@, "INSERT INTO file_chunks"@, "start_line"@, "VALUES ("@, 4),
        lines_up(INSERT_CHUNK_SQL@, "INSERT INTO file_chunks"@, "end_line"@, "VALUES ("@, 5),
        lines_up(INSERT_CHUNK_SQL@, "INSERT INTO file_chunks"@, "embedding_v2"@, "VALUES ("@, 6),
        says(INSERT_CHUNK_SQL@, "ON CONFLICT (file_id, chunk_index) DO UPDATE SET"@),
        says(INSERT_CHUNK_SQL@, "content = EXCLUDED.content"@),
        says(INSERT_CHUNK_SQL@, "start_line = EXCLUDED.start_line"@),
        says(INSERT_CHUNK_SQL@, "end_line = EXCLUDED.end_line"@),
        says(INSERT_CHUNK_SQL@, "embedding_v2 = EXCLUDED.embedding_v2"@),
        says(INSERT_CHUNK_SQL@, "embedding_signature = EXCLUDED.embedding_signature"@),
{
    reveal_strlit(
        "INSERT INTO file_chunks
            (file_id, chunk_index, content, start_line, end_line,
             embedding_v2, embedding_signature)
         VALUES ($1, $2, $3, $4, $5, $6, 'bge-m3-v1')
         ON CONFLICT (file_id, chunk_index) DO UPDATE SET
            content = EXCLUDED.content,
            start_line = EXCLUDED.start_line,
            end_line = EXCLUDED.end_line,
            embedding_v2 = EXCLUDED.embedding_v2,
            embedding_signature = EXCLUDED.embedding_signature",
    );
    reveal_strlit("INSERT INTO file_chunks");
    reveal_strlit("ON CONFLICT (file_id, chunk_index) DO UPDATE SET");
    reveal_strlit("VALUES (");
    reveal_strlit("chunk_index");
    reveal_strlit("content");
    reveal_strlit("content = EXCLUDED.content");
    reveal_strlit("embedding_signature = EXCLUDED.embedding_signature");
    reveal_strlit("embedding_v2");
    reveal_strlit("embedding_v2 = EXCLUDED.embedding_v2");
    reveal_strlit("end_line");
    reveal_strlit("end_line = EXCLUDED.end_line");
    reveal_strlit("file_id");
    reveal_strlit("start_line");
    reveal_strlit("start_line = EXCLUDED.start_line");
    let t = INSERT_CHUNK_SQL@;
    assert(part_at(t, 0, "INSERT INTO file_chunks"@));
    reveal_with_fuel(past, 15);
    reveal_with_fuel(past_blanks, 15);
    assert(past(t, 23, '(') == 37);
    assert(item(t, 37, 0) == 37);
    assert(item(t, 37, 1) == 46);
    assert(item(t, 37, 2) == 59);
    assert(item(t, 37, 3) == 68);
    assert(item(t, 37, 4) == 80);
    assert(item(t, 37, 5) == 103);
    assert(item(t, 155, 0) == 155);
    assert(item(t, 155, 1) == 159);
    assert(item(t, 155, 2) == 163);
    assert(item(t, 155, 3) == 167);
    assert(item(t, 155, 4) == 171);
    assert(item(t, 155, 5) == 175);
    assert(lined_up_at(t, "INSERT INTO file_chunks"@, "file_id"@, "VALUES ("@, 1, 0, 147, 0));
    assert(lined_up_at(t, "INSERT INTO file_chunks"@, "chunk_index"@, "VALUES ("@, 2, 0, 147, 1));
    assert(lined_up_at(t, "INSERT INTO file_chunks"@, "content"@, "VALUES ("@, 3, 0, 147, 2));
    assert(lined_up_at(t, "INSERT INTO file_chunks"@, "start_line"@, "VALUES ("@, 4, 0, 147, 3));
    assert(lined_up_at(t, "INSERT INTO file_chunks"@, "end_line"@, "VALUES ("@, 5, 0, 147, 4));
    assert(lined_up_at(t, "INSERT INTO file_chunks"@, "embedding_v2"@, "VALUES ("@, 6, 0, 147, 5));
    assert(part_at(t, 201, "ON CONFLICT (file_id, chunk_index) DO UPDATE SET"@));
    assert(part_at(t, 262, "content = EXCLUDED.content"@));
    assert(part_at(t, 302, "start_line = EXCLUDED.start_line"@));
    assert(part_at(t, 348, "end_line = EXCLUDED.end_line"@));
    assert(part_at(t, 390, "embedding_v2 = EXCLUDED.embedding_v2"@));
    assert(part_at(t, 440, "embedding_signature = EXCLUDED.embedding_signature"@));
}

/// What the text of [`REPLACE_INSERT_CHUNK_SQL`] says.
#[verifier::rlimit(50)]
pub proof fn replace_insert_chunk_text()
    ensures
        opens(REPLACE_INSERT_CHUNK_SQL@, "INSERT INTO file_chunks"@),
        lines_up(REPLACE_INSERT_CHUNK_SQL@, "INSERT INTO file_chunks"@, "file_id"@, "VALUES ("@, 1),
        lines_up(
            REPLACE_INSERT_CHUNK_SQL@,
            "INSERT INTO file_chunks"@,
            "chunk_index"@,
            "VALUES ("@,
            2,
        ),
        lines_up(REPLACE_INSERT_CHUNK_SQL@, "INSERT INTO file_chunks"@, "content"@, "VALUES ("@, 3),
        lines_up(
            REPLACE_INSERT_CHUNK_SQL@,
            "INSERT INTO file_chunks"@,
            "start_line"@,
            "VALUES ("@,
            4,
        ),
        lines_up(
            REPLACE_INSERT_CHUNK_SQL@,
            "INSERT INTO file_chunks"@,
            "end_line"@,
            "VALUES ("@,
            5,
        ),
        lines_up(
            REPLACE_INSERT_CHUNK_SQL@,
            "INSERT INTO file_chunks"@,
            "embedding_v2"@,
            "VALUES ("@,
            6,
        ),
        says(REPLACE_INSERT_CHUNK_SQL@, "ON CONFLICT (file_id, chunk_index) DO UPDATE SET"@),
        says(REPLACE_INSERT_CHUNK_SQL@, "content = EXCLUDED.content"@),
        says(REPLACE_INSERT_CHUNK_SQL@, "start_line = EXCLUDED.start_line"@),
        says(REPLACE_INSERT_CHUNK_SQL@, "end_line = EXCLUDED.end_line"@),
        says(REPLACE_INSERT_CHUNK_SQL@, "embedding_v2 = EXCLUDED.embedding_v2"@),
        says(REPLACE_INSERT_CHUNK_SQL@, "embedding_signature = EXCLUDED.embedding_signature"@),
{
    reveal_strlit(
        "INSERT INTO file_chunks
                    (file_id, chunk_index, content, start_line, end_line,
                     embedding_v2, embedding_signature)
                 VALUES ($1, $2, $3, $4, $5, $6, 'bge-m3-v1')
                 ON CONFLICT (file_id, chunk_index) DO UPDATE SET
                    content = EXCLUDED.content,
                    start_line = EXCLUDED.start_line,
                    end_line = EXCLUDED.end_line,
                    embedding_v2 = EXCLUDED.embedding_v2,
                    embedding_signature = EXCLUDED.embedding_signature",
    );
    reveal_strlit("INSERT INTO file_chunks");
    reveal_strlit("ON CONFLICT (file_id, chunk_index) DO UPDATE SET");
    reveal_strlit("VALUES (");
    reveal_strlit("chunk_index");
    reveal_strlit("content");
    reveal_strlit("content = EXCLUDED.content");
    reveal_strlit("embedding_signature = EXCLUDED.embedding_signature");
    reveal_strlit("embedding_v2");
    reveal_strlit("embedding_v2 = EXCLUDED.embedding_v2");
    reveal_strlit("end_line");
    reveal_strlit("end_line = EXCLUDED.end_line");
    reveal_strlit("file_id");
    reveal_strlit("start_line");
    reveal_strlit("start_line = EXCLUDED.start_line");
    let t = REPLACE_INSERT_CHUNK_SQL@;
    assert(part_at(t, 0, "INSERT INTO file_chunks"@));
    reveal_with_fuel(past, 23);
    reveal_with_fuel(past_blanks, 23);
    assert(past(t, 23, '(') == 45);
    assert(item(t, 45, 0) == 45);
    assert(item(t, 45, 1) == 54);
    assert(item(t, 45, 2) == 67);
    assert(item(t, 45, 3) == 76);
    assert(item(t, 45, 4) == 88);
    assert(item(t, 45, 5) == 119);
    assert(item(t, 179, 0) == 179);
    assert(item(t, 179, 1) == 183);
    assert(item(t, 179, 2) == 187);
    assert(item(t, 179, 3) == 191);
    assert(item(t, 179, 4) == 195);
    assert(item(t, 179, 5) == 199);
    assert(lined_up_at(t, "INSERT INTO file_chunks"@, "file_id"@, "VALUES ("@, 1, 0, 171, 0));
    assert(lined_up_at(t, "INSERT INTO file_chunks"@, "chunk_index"@, "VALUES ("@, 2, 0, 171, 1));
    assert(lined_up_at(t, "INSERT INTO file_chunks"@, "content"@, "VALUES ("@, 3, 0, 171, 2));
    assert(lined_up_at(t, "INSERT INTO file_chunks"@, "start_line"@, "VALUES ("@, 4, 0, 171, 3));
    assert(lined_up_at(t, "INSERT INTO file_chunks"@, "end_line"@, "VALUES ("@, 5, 0, 171, 4));
    assert(lined_up_at(t, "INSERT INTO file_chunks"@, "embedding_v2"@, "VALUES ("@, 6, 0, 171, 5));
    assert(part_at(t, 233, "ON CONFLICT (file_id, chunk_index) DO UPDATE SET"@));
    assert(part_at(t, 302, "content = EXCLUDED.content"@));
    assert(part_at(t, 350, "start_line = EXCLUDED.start_line"@));
    assert(part_at(t, 404, "end_line = EXCLUDED.end_line"@));
    assert(part_at(t, 454, "embedding_v2 = EXCLUDED.embedding_v2"@));
    assert(part_at(t, 512, "embedding_signature = EXCLUDED.embedding_signature"@));
}

/// What the text of [`BATCH_INSERT_CHUNK_SQL`] says.
#[verifier::rlimit(50)]
pub proof fn batch_insert_chunk_text()
    ensures
        opens(BATCH_INSERT_CHUNK_SQL@, "INSERT INTO file_chunks"@),
        lines_up(BATCH_INSERT_CHUNK_SQL@, "INSERT INTO file_chunks"@, "file_id"@, "VALUES ("@, 1),
        lines_up(
            BATCH_INSERT_CHUNK_SQL@,
            "INSERT INTO file_chunks"@,
            "chunk_index"@,
            "VALUES ("@,
            2,
        ),
        lines_up(BATCH_INSERT_CHUNK_SQL@, "INSERT INTO file_chunks"@, "content"@, "VALUES ("@, 3),
        lines_up(
            BATCH_INSERT_CHUNK_SQL@,
            "INSERT INTO file_chunks"@,
            "start_line"@,
            "VALUES ("@,
            4,
        ),
        lines_up(BATCH_INSERT_CHUNK_SQL@, "INSERT INTO file_chunks"@, "end_line"@, "VALUES ("@, 5),
        lines_up(
            BATCH_INSERT_CHUNK_SQL@,
            "INSERT INTO file_chunks"@,
            "embedding_v2"@,
            "VALUES ("@,
            6,
        ),
        says(BATCH_INSERT_CHUNK_SQL@, "ON CONFLICT (file_id, chunk_index) DO UPDATE SET"@),
        says(BATCH_INSERT_CHUNK_SQL@, "content = EXCLUDED.content"@),
        says(BATCH_INSERT_CHUNK_SQL@, "start_line = EXCLUDED.start_line"@),
        says(BATCH_INSERT_CHUNK_SQL@, "end_line = EXCLUDED.end_line"@),
        says(BATCH_INSERT_CHUNK_SQL@, "embedding_v2 = EXCLUDED.embedding_v2"@),
        says(BATCH_INSERT_CHUNK_SQL@, "embedding_signature = EXCLUDED.embedding_signature"@),
{
    reveal_strlit(
        "INSERT INTO file_chunks
                    (file_id, chunk_index, content, start_line, end_line,
                     embedding_v2, embedding_signature)
                 VALUES ($1, $2, $3, $4, $5, $6, 'bge-m3-v1')
                 ON CONFLICT (file_id, chunk_index) DO UPDATE SET
                    content = EXCLUDED.content,
                    start_line = EXCLUDED.start_line,
                    end_line = EXCLUDED.end_line,
                    embedding_v2 = EXCLUDED.embedding_v2,
                    embedding_signature = EXCLUDED.embedding_signature",
    );
    reveal_strlit("INSERT INTO file_chunks");
    reveal_strlit("ON CONFLICT (file_id, chunk_index) DO UPDATE SET");
    reveal_strlit("VALUES (");
    reveal_strlit("chunk_index");
    reveal_strlit("content");
    reveal_strlit("content = EXCLUDED.content");
    reveal_strlit("embedding_signature = EXCLUDED.embedding_signature");
    reveal_strlit("embedding_v2");
    reveal_strlit("embedding_v2 = EXCLUDED.embedding_v2");
    reveal_strlit("end_line");
    reveal_strlit("end_line = EXCLUDED.end_line");
    reveal_strlit("file_id");
    reveal_strlit("start_line");
    reveal_strlit("start_line = EXCLUDED.start_line");
    let t = BATCH_INSERT_CHUNK_SQL@;
    assert(part_at(t, 0, "INSERT INTO file_chunks"@));
    reveal_with_fuel(past, 23);
    reveal_with_fuel(past_blanks, 23);
    assert(past(t, 23, '(') == 45);
    assert(item(t, 45, 0) == 45);
    assert(item(t, 45, 1) == 54);
    assert(item(t, 45, 2) == 67);
    assert(item(t, 45, 3) == 76);
    assert(item(t, 45, 4) == 88);
    assert(item(t, 45, 5) == 119);
    assert(item(t, 179, 0) == 179);
    assert(item(t, 179, 1) == 183);
    assert(item(t, 179, 2) == 187);
    assert(item(t, 179, 3) == 191);
    assert(item(t, 179, 4) == 195);
    assert(item(t, 179, 5) == 199);
    assert(lined_up_at(t, "INSERT INTO file_chunks"@, "file_id"@, "VALUES ("@, 1, 0, 171, 0));
    assert(lined_up_at(t, "INSERT INTO file_chunks"@, "chunk_index"@, "VALUES ("@, 2, 0, 171, 1));
    assert(lined_up_at(t, "INSERT INTO file_chunks"@, "content"@, "VALUES ("@, 3, 0, 171, 2));
    assert(lined_up_at(t, "INSERT INTO file_chunks"@, "start_line"@, "VALUES ("@, 4, 0, 171, 3));
    assert(lined_up_at(t, "INSERT INTO file_chunks"@, "end_line"@, "VALUES ("@, 5, 0, 171, 4));
    assert(lined_up_at(t, "INSERT INTO file_chunks"@, "embedding_v2"@, "VALUES ("@, 6, 0, 171, 5));
    assert(part_at(t, 233, "ON CONFLICT (file_id, chunk_index) DO UPDATE SET"@));
    assert(part_at(t, 302, "content = EXCLUDED.content"@));
    assert(part_at(t, 350, "start_line = EXCLUDED.start_line"@));
    assert(part_at(t, 404, "end_line = EXCLUDED.end_line"@));
    assert(part_at(t, 454, "embedding_v2 = EXCLUDED.embedding_v2"@));
    assert(part_at(t, 512, "embedding_signature = EXCLUDED.embedding_signature"@));
}

/// What the text of [`EMBEDDINGS_OF_LANGUAGE_1`] says.
pub proof fn embeddings_of_language_1_text()
    ensures
        opens(EMBEDDINGS_OF_LANGUAGE_1@, "SELECT"@),
        ends_plainly(EMBEDDINGS_OF_LANGUAGE_1@),
{
    reveal_strlit(
        "SELECT c.id as chunk_id, c.file_id, f.project_id, p.name as project_name,
                    f.path, f.language, c.content, c.",
    );
    reveal_strlit("SELECT");
    let t = EMBEDDINGS_OF_LANGUAGE_1@;
    assert(part_at(t, 0, "SELECT"@));
}

/// What the text of [`EMBEDDINGS_OF_LANGUAGE_2`] says.
pub proof fn embeddings_of_language_2_text()
    ensures
        mentions(EMBEDDINGS_OF_LANGUAGE_2@, "f.language = "@, 1),
        says(EMBEDDINGS_OF_LANGUAGE_2@, "AND c."@),
        says(EMBEDDINGS_OF_LANGUAGE_2@, "FROM file_chunks"@),
        says(EMBEDDINGS_OF_LANGUAGE_2@, "JOIN indexed_files f ON f.id = c.file_id"@),
        says(EMBEDDINGS_OF_LANGUAGE_2@, "JOIN projects p ON p.id = f.project_id"@),
        ends_plainly(EMBEDDINGS_OF_LANGUAGE_2@),
{
    reveal_strlit(
        "::real[] as embedding
             FROM file_chunks c
             JOIN indexed_files f ON f.id = c.file_id
             JOIN projects p ON p.id = f.project_id
             WHERE f.language = $1
               AND c.",
    );
    reveal_strlit("AND c.");
    reveal_strlit("FROM file_chunks");
    reveal_strlit("JOIN indexed_files f ON f.id = c.file_id");
    reveal_strlit("JOIN projects p ON p.id = f.project_id");
    reveal_strlit("f.language = ");
    let t = EMBEDDINGS_OF_LANGUAGE_2@;
    assert(part_at(t, 179, "f.language = "@));
    assert(part_at(t, 210, "AND c."@));
    assert(part_at(t, 35, "FROM file_chunks"@));
    assert(part_at(t, 67, "JOIN indexed_files f ON f.id = c.file_id"@));
    assert(part_at(t, 121, "JOIN projects p ON p.id = f.project_id"@));
}

/// What the text of [`EMBEDDINGS_OF_LANGUAGE_3`] says.
#[verifier::rlimit(50)]
pub proof fn embeddings_of_language_3_text()
    ensures
        says(EMBEDDINGS_OF_LANGUAGE_3@, "AND NOT EXISTS ("@),
        says(EMBEDDINGS_OF_LANGUAGE_3@, "WHERE p_dup.id < p.id"@),
        says(EMBEDDINGS_OF_LANGUAGE_3@, "AND p.git_common_dir IS NOT NULL"@),
        says(EMBEDDINGS_OF_LANGUAGE_3@, "AND p_dup.git_common_dir = p.git_common_dir)"@),
        says(EMBEDDINGS_OF_LANGUAGE_3@, "AND p.git_root_commits IS NOT NULL"@),
        says(EMBEDDINGS_OF_LANGUAGE_3@, "AND p_dup.git_root_commits = p.git_root_commits)"@),
        says(EMBEDDINGS_OF_LANGUAGE_3@, "ORDER BY c.id"@),
        says(EMBEDDINGS_OF_LANGUAGE_3@, "FROM projects"@),
        ends_plainly(EMBEDDINGS_OF_LANGUAGE_3@),
{
    reveal_strlit(
        " IS NOT NULL
               AND NOT EXISTS (
        SELECT 1 FROM projects p_dup
        WHERE p_dup.id < p.id
          AND (
              (p_dup.git_common_dir IS NOT NULL
               AND p.git_common_dir IS NOT NULL
               AND p_dup.git_common_dir = p.git_common_dir)
              OR
              (p_dup.git_root_commits IS NOT NULL
               AND p.git_root_commits IS NOT NULL
               AND p_dup.git_root_commits = p.git_root_commits)
          )
    )
             ORDER BY c.id",
    );
    reveal_strlit("AND NOT EXISTS (");
    reveal_strlit("AND p.git_common_dir IS NOT NULL");
    reveal_strlit("AND p.git_root_commits IS NOT NULL");
    reveal_strlit("AND p_dup.git_common_dir = p.git_common_dir)");
    reveal_strlit("AND p_dup.git_root_commits = p.git_root_commits)");
    reveal_strlit("FROM projects");
    reveal_strlit("ORDER BY c.id");
    reveal_strlit("WHERE p_dup.id < p.id");
    let t = EMBEDDINGS_OF_LANGUAGE_3@;
    assert(part_at(t, 28, "AND NOT EXISTS ("@));
    assert(part_at(t, 90, "WHERE p_dup.id < p.id"@));
    assert(part_at(t, 191, "AND p.git_common_dir IS NOT NULL"@));
    assert(part_at(t, 239, "AND p_dup.git_common_dir = p.git_common_dir)"@));
    assert(part_at(t, 366, "AND p.git_root_commits IS NOT NULL"@));
    assert(part_at(t, 416, "AND p_dup.git_root_commits = p.git_root_commits)"@));
    assert(part_at(t, 496, "ORDER BY c.id"@));
    assert(part_at(t, 62, "FROM projects"@));
}

/// What the text of [`ALL_EMBEDDINGS_1`] says.
pub proof fn all_embeddings_1_text()
    ensures
        opens(ALL_EMBEDDINGS_1@, "SELECT"@),
        ends_plainly(ALL_EMBEDDINGS_1@),
{
    reveal_strlit(
        "SELECT c.id as chunk_id, c.file_id, f.project_id, p.name as project_name,
                    f.path, f.language, c.content, c.",
    );
    reveal_strlit("SELECT");
    let t = ALL_EMBEDDINGS_1@;
    assert(part_at(t, 0, "SELECT"@));
}

/// What the text of [`ALL_EMBEDDINGS_2`] says.
pub proof fn all_embeddings_2_text()
    ensures
        says(ALL_EMBEDDINGS_2@, "WHERE c."@),
        says(ALL_EMBEDDINGS_2@, "FROM file_chunks"@),
        says(ALL_EMBEDDINGS_2@, "JOIN indexed_files f ON f.id = c.file_id"@),
        says(ALL_EMBEDDINGS_2@, "JOIN projects p ON p.id = f.project_id"@),
        ends_plainly(ALL_EMBEDDINGS_2@),
{
    reveal_strlit(
        "::real[] as embedding
             FROM file_chunks c
             JOIN indexed_files f ON f.id = c.file_id
             JOIN projects p ON p.id = f.project_id
             WHERE c.",
    );
    reveal_strlit("FROM file_chunks");
    reveal_strlit("JOIN indexed_files f ON f.id = c.file_id");
    reveal_strlit("JOIN projects p ON p.id = f.project_id");
    reveal_strlit("WHERE c.");
    let t = ALL_EMBEDDINGS_2@;
    assert(part_at(t, 173, "WHERE c."@));
    assert(part_at(t, 35, "FROM file_chunks"@));
    assert(part_at(t, 67, "JOIN indexed_files f ON f.id = c.file_id"@));
    assert(part_at(t, 121, "JOIN projects p ON p.id = f.project_id"@));
}

/// What the text of [`ALL_EMBEDDINGS_3`] says.
#[verifier::rlimit(50)]
pub proof fn all_embeddings_3_text()
    ensures
        says(ALL_EMBEDDINGS_3@, "AND NOT EXISTS ("@),
        says(ALL_EMBEDDINGS_3@, "WHERE p_dup.id < p.id"@),
        says(ALL_EMBEDDINGS_3@, "AND p.git_common_dir IS NOT NULL"@),
        says(ALL_EMBEDDINGS_3@, "AND p_dup.git_common_dir = p.git_common_dir)"@),
        says(ALL_EMBEDDINGS_3@, "AND p.git_root_commits IS NOT NULL"@),
        says(ALL_EMBEDDINGS_3@, "AND p_dup.git_root_commits = p.git_root_commits)"@),
        says(ALL_EMBEDDINGS_3@, "ORDER BY c.id"@),
        says(ALL_EMBEDDINGS_3@, "FROM projects"@),
        ends_plainly(ALL_EMBEDDINGS_3@),
{
    reveal_strlit(
        " IS NOT NULL
               AND NOT EXISTS (
        SELECT 1 FROM projects p_dup
        WHERE p_dup.id < p.id
          AND (
              (p_dup.git_common_dir IS NOT NULL
               AND p.git_common_dir IS NOT NULL
               AND p_dup.git_common_dir = p.git_common_dir)
              OR
              (p_dup.git_root_commits IS NOT NULL
               AND p.git_root_commits IS NOT NULL
               AND p_dup.git_root_commits = p.git_root_commits)
          )
    )
             ORDER BY c.id",
    );
    reveal_strlit("AND NOT EXISTS (");
    reveal_strlit("AND p.git_common_dir IS NOT NULL");
    reveal_strlit("AND p.git_root_commits IS NOT NULL");
    reveal_strlit("AND p_dup.git_common_dir = p.git_common_dir)");
    reveal_strlit("AND p_dup.git_root_commits = p.git_root_commits)");
    reveal_strlit("FROM projects");
    reveal_strlit("ORDER BY c.id");
    reveal_strlit("WHERE p_dup.id < p.id");
    let t = ALL_EMBEDDINGS_3@;
    assert(part_at(t, 28, "AND NOT EXISTS ("@));
    assert(part_at(t, 90, "WHERE p_dup.id < p.id"@));
    assert(part_at(t, 191, "AND p.git_common_dir IS NOT NULL"@));
    assert(part_at(t, 239, "AND p_dup.git_common_dir = p.git_common_dir)"@));
    assert(part_at(t, 366, "AND p.git_root_commits IS NOT NULL"@));
    assert(part_at(t, 416, "AND p_dup.git_root_commits = p.git_root_commits)"@));
    assert(part_at(t, 496, "ORDER BY c.id"@));
    assert(part_at(t, 62, "FROM projects"@));
}

/// What the text of [`PROJECT_LANGUAGE_EMBEDDINGS_1`] says.
pub proof fn project_language_embeddings_1_text()
    ensures
        opens(PROJECT_LANGUAGE_EMBEDDINGS_1@, "SELECT"@),
        ends_plainly(PROJECT_LANGUAGE_EMBEDDINGS_1@),
{
    reveal_strlit(
        "SELECT c.id as chunk_id, c.file_id, f.project_id, p.name as project_name,
                    f.path, f.language, c.content, c.",
    );
    reveal_strlit("SELECT");
    let t = PROJECT_LANGUAGE_EMBEDDINGS_1@;
    assert(part_at(t, 0, "SELECT"@));
}

/// What the text of [`PROJECT_LANGUAGE_EMBEDDINGS_2`] says.
pub proof fn project_language_embeddings_2_text()
    ensures
        mentions(PROJECT_LANGUAGE_EMBEDDINGS_2@, "p.name = "@, 1),
        mentions(PROJECT_LANGUAGE_EMBEDDINGS_2@, "f.language = "@, 2),
        says(PROJECT_LANGUAGE_EMBEDDINGS_2@, "AND c."@),
        says(PROJECT_LANGUAGE_EMBEDDINGS_2@, "FROM file_chunks"@),
        says(PROJECT_LANGUAGE_EMBEDDINGS_2@, "JOIN indexed_files f ON f.id = c.file_id"@),
        says(PROJECT_LANGUAGE_EMBEDDINGS_2@, "JOIN projects p ON p.id = f.project_id"@),
        ends_plainly(PROJECT_LANGUAGE_EMBEDDINGS_2@),
{
    reveal_strlit(
        "::real[] as embedding
             FROM file_chunks c
             JOIN indexed_files f ON f.id = c.file_id
             JOIN projects p ON p.id = f.project_id
             WHERE p.name = $1 AND f.language = $2
               AND c.",
    );
    reveal_strlit("AND c.");
    reveal_strlit("FROM file_chunks");
    reveal_strlit("JOIN indexed_files f ON f.id = c.file_id");
    reveal_strlit("JOIN projects p ON p.id = f.project_id");
    reveal_strlit("f.language = ");
    reveal_strlit("p.name = ");
    let t = PROJECT_LANGUAGE_EMBEDDINGS_2@;
    assert(part_at(t, 179, "p.name = "@));
    assert(part_at(t, 195, "f.language = "@));
    assert(part_at(t, 226, "AND c."@));
    assert(part_at(t, 35, "FROM file_chunks"@));
    assert(part_at(t, 67, "JOIN indexed_files f ON f.id = c.file_id"@));
    assert(part_at(t, 121, "JOIN projects p ON p.id = f.project_id"@));
}

/// What the text of [`PROJECT_LANGUAGE_EMBEDDINGS_3`] says.
pub proof fn project_language_embeddings_3_text()
    ensures
        says(PROJECT_LANGUAGE_EMBEDDINGS_3@, "ORDER BY c.id"@),
        ends_plainly(PROJECT_LANGUAGE_EMBEDDINGS_3@),
{
    reveal_strlit(
        " IS NOT NULL
             ORDER BY c.id",
    );
    reveal_strlit("ORDER BY c.id");
    let t = PROJECT_LANGUAGE_EMBEDDINGS_3@;
    assert(part_at(t, 26, "ORDER BY c.id"@));
}

/// What the text of [`PROJECT_EMBEDDINGS_1`] says.
pub proof fn project_embeddings_1_text()
    ensures
        opens(PROJECT_EMBEDDINGS_1@, "SELECT"@),
        ends_plainly(PROJECT_EMBEDDINGS_1@),
{
    reveal_strlit(
        "SELECT c.id as chunk_id, c.file_id, f.project_id, p.name as project_name,
                    f.path, f.language, c.content, c.",
    );
    reveal_strlit("SELECT");
    let t = PROJECT_EMBEDDINGS_1@;
    assert(part_at(t, 0, "SELECT"@));
}

/// What the text of [`PROJECT_EMBEDDINGS_2`] says.
pub proof fn project_embeddings_2_text()
    ensures
        mentions(PROJECT_EMBEDDINGS_2@, "p.name = "@, 1),
        says(PROJECT_EMBEDDINGS_2@, "AND c."@),
        says(PROJECT_EMBEDDINGS_2@, "FROM file_chunks"@),
        says(PROJECT_EMBEDDINGS_2@, "JOIN indexed_files f ON f.id = c.file_id"@),
        says(PROJECT_EMBEDDINGS_2@, "JOIN projects p ON p.id = f.project_id"@),
        ends_plainly(PROJECT_EMBEDDINGS_2@),
{
    reveal_strlit(
        "::real[] as embedding
             FROM file_chunks c
             JOIN indexed_files f ON f.id = c.file_id
             JOIN projects p ON p.id = f.project_id
             WHERE p.name = $1
               AND c.",
    );
    reveal_strlit("AND c.");
    reveal_strlit("FROM file_chunks");
    reveal_strlit("JOIN indexed_files f ON f.id = c.file_id");
    reveal_strlit("JOIN projects p ON p.id = f.project_id");
    reveal_strlit("p.name = ");
    let t = PROJECT_EMBEDDINGS_2@;
    assert(part_at(t, 179, "p.name = "@));
    assert(part_at(t, 206, "AND c."@));
    assert(part_at(t, 35, "FROM file_chunks"@));
    assert(part_at(t, 67, "JOIN indexed_files f ON f.id = c.file_id"@));
    assert(part_at(t, 121, "JOIN projects p ON p.id = f.project_id"@));
}

/// What the text of [`PROJECT_EMBEDDINGS_3`] says.
pub proof fn project_embeddings_3_text()
    ensures
        says(PROJECT_EMBEDDINGS_3@, "ORDER BY c.id"@),
        ends_plainly(PROJECT_EMBEDDINGS_3@),
{
    reveal_strlit(
        " IS NOT NULL
             ORDER BY c.id",
    );
    reveal_strlit("ORDER BY c.id");
    let t = PROJECT_EMBEDDINGS_3@;
    assert(part_at(t, 26, "ORDER BY c.id"@));
}

/// What the text of [`BEST_CHUNK_1`] says.
pub proof fn best_chunk_1_text()
    ensures
        opens(BEST_CHUNK_1@, "SELECT DISTINCT ON"@),
        ends_plainly(BEST_CHUNK_1@),
{
    reveal_strlit(
        "SELECT DISTINCT ON (c.file_id)
                c.file_id, f.relative_path, f.language, c.content,
                c.start_line, c.end_line, (1.0 - (c.",
    );
    reveal_strlit("SELECT DISTINCT ON");
    let t = BEST_CHUNK_1@;
    assert(part_at(t, 0, "SELECT DISTINCT ON"@));
}

/// What the text of [`BEST_CHUNK_2`] says.
pub proof fn best_chunk_2_text()
    ensures
        mentions(BEST_CHUNK_2@, "<=> "@, 1),
        mentions(BEST_CHUNK_2@, "c.file_id = ANY("@, 2),
        says(BEST_CHUNK_2@, "FROM file_chunks"@),
        says(BEST_CHUNK_2@, "JOIN indexed_files f ON f.id = c.file_id"@),
        ends_plainly(BEST_CHUNK_2@),
{
    reveal_strlit(
        " <=> $1))::float8 AS similarity
         FROM file_chunks c
         JOIN indexed_files f ON f.id = c.file_id
         WHERE c.file_id = ANY($2) AND c.",
    );
    reveal_strlit("<=> ");
    reveal_strlit("FROM file_chunks");
    reveal_strlit("JOIN indexed_files f ON f.id = c.file_id");
    reveal_strlit("c.file_id = ANY(");
    let t = BEST_CHUNK_2@;
    assert(part_at(t, 1, "<=> "@));
    assert(part_at(t, 125, "c.file_id = ANY("@));
    assert(part_at(t, 41, "FROM file_chunks"@));
    assert(part_at(t, 69, "JOIN indexed_files f ON f.id = c.file_id"@));
}

/// What the text of [`BEST_CHUNK_3`] says.
pub proof fn best_chunk_3_text()
    ensures
        says(BEST_CHUNK_3@, "ORDER BY c.file_id, c."@),
        ends_plainly(BEST_CHUNK_3@),
{
    reveal_strlit(
        " IS NOT NULL
         ORDER BY c.file_id, c.",
    );
    reveal_strlit("ORDER BY c.file_id, c.");
    let t = BEST_CHUNK_3@;
    assert(part_at(t, 22, "ORDER BY c.file_id, c."@));
}

/// What the text of [`BEST_CHUNK_4`] says.
pub proof fn best_chunk_4_text()
    ensures
        mentions(BEST_CHUNK_4@, "<=> "@, 1),
{
    reveal_strlit(
        " <=> $1",
    );
    reveal_strlit("<=> ");
    let t = BEST_CHUNK_4@;
    assert(part_at(t, 1, "<=> "@));
}

/// What the text of [`RERANK_1`] says.
pub proof fn rerank_1_text()
    ensures
        opens(RERANK_1@, "SELECT"@),
        ends_plainly(RERANK_1@),
{
    reveal_strlit(
        "SELECT id AS chunk_id, ",
    );
    reveal_strlit("SELECT");
    let t = RERANK_1@;
    assert(part_at(t, 0, "SELECT"@));
}

/// What the text of [`RERANK_2`] says.
pub proof fn rerank_2_text()
    ensures
        mentions(RERANK_2@, "id = ANY("@, 1),
        says(RERANK_2@, "FROM file_chunks"@),
        ends_plainly(RERANK_2@),
{
    reveal_strlit(
        " AS embedding, blame_date
         FROM file_chunks WHERE id = ANY($1)",
    );
    reveal_strlit("FROM file_chunks");
    reveal_strlit("id = ANY(");
    let t = RERANK_2@;
    assert(part_at(t, 58, "id = ANY("@));
    assert(part_at(t, 35, "FROM file_chunks"@));
}

/// Each argument of [`upserts`] is what the text names in its place.
pub proof fn law_upserts_stands_for_its_values(v: ReplacementView)
    ensures
        opens(v.upserts().sql, "INSERT INTO indexed_files"@),
        fills(
            v.upserts(),
            "INSERT INTO indexed_files"@,
            "project_id"@,
            "VALUES ("@,
            BindView::Int(v.project_id),
        ),
        fills(
            v.upserts(),
            "INSERT INTO indexed_files"@,
            "path"@,
            "VALUES ("@,
            BindView::Text(v.path),
        ),
        fills(
            v.upserts(),
            "INSERT INTO indexed_files"@,
            "relative_path"@,
            "VALUES ("@,
            BindView::Text(v.relative_path),
        ),
        fills(
            v.upserts(),
            "INSERT INTO indexed_files"@,
            "language"@,
            "VALUES ("@,
            BindView::Text(v.language),
        ),
        fills(
            v.upserts(),
            "INSERT INTO indexed_files"@,
            "size_bytes"@,
            "VALUES ("@,
            BindView::BigInt(v.size_bytes),
        ),
        fills(
            v.upserts(),
            "INSERT INTO indexed_files"@,
            "content"@,
            "VALUES ("@,
            BindView::OptText(v.content),
        ),
        fills(
            v.upserts(),
            "INSERT INTO indexed_files"@,
            "content_hash"@,
            "VALUES ("@,
            BindView::OptBigInt(None),
        ),
        fills(
            v.upserts(),
            "INSERT INTO indexed_files"@,
            "line_count"@,
            "VALUES ("@,
            BindView::Int(v.line_count),
        ),
        fills(
            v.upserts(),
            "INSERT INTO indexed_files"@,
            "truncated"@,
            "VALUES ("@,
            BindView::Bool(v.truncated),
        ),
        fills(
            v.upserts(),
            "INSERT INTO indexed_files"@,
            "content_recoverable_from_disk"@,
            "VALUES ("@,
            BindView::Bool(v.content_recoverable_from_disk),
        ),
        fills(
            v.upserts(),
            "INSERT INTO indexed_files"@,
            "modified_at"@,
            "VALUES ("@,
            BindView::Supplied(0),
        ),
        says(v.upserts().sql, "ON CONFLICT (path) DO UPDATE SET"@),
        says(v.upserts().sql, "project_id = EXCLUDED.project_id"@),
        says(v.upserts().sql, "relative_path = EXCLUDED.relative_path"@),
        says(v.upserts().sql, "language = EXCLUDED.language"@),
        says(v.upserts().sql, "size_bytes = EXCLUDED.size_bytes"@),
        says(v.upserts().sql, "content = EXCLUDED.content"@),
        says(v.upserts().sql, "content_hash = EXCLUDED.content_hash"@),
        says(v.upserts().sql, "line_count = EXCLUDED.line_count"@),
        says(v.upserts().sql, "truncated = EXCLUDED.truncated"@),
        says(
            v.upserts().sql,
            "content_recoverable_from_disk = EXCLUDED.content_recoverable_from_disk"@,
        ),
        says(v.upserts().sql, "modified_at = EXCLUDED.modified_at"@),
{
    replace_file_text();
    assert(v.upserts().sql == REPLACE_FILE_SQL@);
}

/// Each argument of [`deletes`] is what the text names in its place.
pub proof fn law_deletes_stands_for_its_values(v: ReplacementView, file_id: i64)
    ensures
        opens(v.deletes(file_id).sql, "DELETE FROM file_chunks"@),
        takes(v.deletes(file_id), "file_id = "@, BindView::BigInt(file_id)),
{
    replace_delete_chunks_text();
    assert(v.deletes(file_id).sql == REPLACE_DELETE_CHUNKS_SQL@);
}

/// Each argument of [`finalizes`] is what the text names in its place.
pub proof fn law_finalizes_stands_for_its_values(v: ReplacementView, file_id: i64)
    ensures
        opens(v.finalizes(file_id).sql, "UPDATE indexed_files"@),
        takes(v.finalizes(file_id), "content_hash = "@, BindView::BigInt(v.content_hash)),
        takes(v.finalizes(file_id), "$1 WHERE id = "@, BindView::BigInt(file_id)),
{
    replace_finalize_text();
    assert(v.finalizes(file_id).sql == REPLACE_FINALIZE_SQL@);
}

/// The statement that stores chunk `i` of a file puts each field of the chunk in
/// the column of its name.
pub proof fn law_chunk_of_a_file_fills_its_row(v: ReplacementView, file_id: i64, i: int)
    ensures
        opens(v.inserts(file_id, i).sql, "INSERT INTO file_chunks"@),
        fills(
            v.inserts(file_id, i),
            "INSERT INTO file_chunks"@,
            "file_id"@,
            "VALUES ("@,
            BindView::BigInt(file_id),
        ),
        fills(
            v.inserts(file_id, i),
            "INSERT INTO file_chunks"@,
            "chunk_index"@,
            "VALUES ("@,
            BindView::Int(v.chunks[i].chunk_index),
        ),
        fills(
            v.inserts(file_id, i),
            "INSERT INTO file_chunks"@,
            "content"@,
            "VALUES ("@,
            BindView::Text(v.chunks[i].content),
        ),
        fills(
            v.inserts(file_id, i),
            "INSERT INTO file_chunks"@,
            "start_line"@,
            "VALUES ("@,
            BindView::Int(v.chunks[i].start_line),
        ),
        fills(
            v.inserts(file_id, i),
            "INSERT INTO file_chunks"@,
            "end_line"@,
            "VALUES ("@,
            BindView::Int(v.chunks[i].end_line),
        ),
        fills(
            v.inserts(file_id, i),
            "INSERT INTO file_chunks"@,
            "embedding_v2"@,
            "VALUES ("@,
            BindView::Supplied(0),
        ),
        says(v.inserts(file_id, i).sql, "ON CONFLICT (file_id, chunk_index) DO UPDATE SET"@),
        says(v.inserts(file_id, i).sql, "content = EXCLUDED.content"@),
        says(v.inserts(file_id, i).sql, "start_line = EXCLUDED.start_line"@),
        says(v.inserts(file_id, i).sql, "end_line = EXCLUDED.end_line"@),
        says(v.inserts(file_id, i).sql, "embedding_v2 = EXCLUDED.embedding_v2"@),
        says(v.inserts(file_id, i).sql, "embedding_signature = EXCLUDED.embedding_signature"@),
{
    replace_insert_chunk_text();
    assert(v.inserts(file_id, i).sql == REPLACE_INSERT_CHUNK_SQL@);
}

/// The statement that stores a chunk of a batch puts each field of the chunk in
/// the column of its name.
pub proof fn law_chunk_of_a_batch_fills_its_row(file_id: i64, c: ChunkView)
    ensures
        opens(stores_chunk(BATCH_INSERT_CHUNK_SQL@, file_id, c).sql, "INSERT INTO file_chunks"@),
        fills(
            stores_chunk(BATCH_INSERT_CHUNK_SQL@, file_id, c),
            "INSERT INTO file_chunks"@,
            "file_id"@,
            "VALUES ("@,
            BindView::BigInt(file_id),
        ),
        fills(
            stores_chunk(BATCH_INSERT_CHUNK_SQL@, file_id, c),
            "INSERT INTO file_chunks"@,
            "chunk_index"@,
            "VALUES ("@,
            BindView::Int(c.chunk_index),
        ),
        fills(
            stores_chunk(BATCH_INSERT_CHUNK_SQL@, file_id, c),
            "INSERT INTO file_chunks"@,
            "content"@,
            "VALUES ("@,
            BindView::Text(c.content),
        ),
        fills(
            stores_chunk(BATCH_INSERT_CHUNK_SQL@, file_id, c),
            "INSERT INTO file_chunks"@,
            "start_line"@,
            "VALUES ("@,
            BindView::Int(c.start_line),
        ),
        fills(
            stores_chunk(BATCH_INSERT_CHUNK_SQL@, file_id, c),
            "INSERT INTO file_chunks"@,
            "end_line"@,
            "VALUES ("@,
            BindView::Int(c.end_line),
        ),
        fills(
            stores_chunk(BATCH_INSERT_CHUNK_SQL@, file_id, c),
            "INSERT INTO file_chunks"@,
            "embedding_v2"@,
            "VALUES ("@,
            BindView::Supplied(0),
        ),
        says(
            stores_chunk(BATCH_INSERT_CHUNK_SQL@, file_id, c).sql,
            "ON CONFLICT (file_id, chunk_index) DO UPDATE SET"@,
        ),
        says(stores_chunk(BATCH_INSERT_CHUNK_SQL@, file_id, c).sql, "content = EXCLUDED.content"@),
        says(
            stores_chunk(BATCH_INSERT_CHUNK_SQL@, file_id, c).sql,
            "start_line = EXCLUDED.start_line"@,
        ),
        says(
            stores_chunk(BATCH_INSERT_CHUNK_SQL@, file_id, c).sql,
            "end_line = EXCLUDED.end_line"@,
        ),
        says(
            stores_chunk(BATCH_INSERT_CHUNK_SQL@, file_id, c).sql,
            "embedding_v2 = EXCLUDED.embedding_v2"@,
        ),
        says(
            stores_chunk(BATCH_INSERT_CHUNK_SQL@, file_id, c).sql,
            "embedding_signature = EXCLUDED.embedding_signature"@,
        ),
{
    batch_insert_chunk_text();
    assert(stores_chunk(BATCH_INSERT_CHUNK_SQL@, file_id, c).sql == BATCH_INSERT_CHUNK_SQL@);
}

/// The embeddings of a language are those of its files, each once among the
/// working trees of a repository.
pub proof fn law_embeddings_are_of_the_language(col: Seq<char>, language: Seq<char>, st: StatementView)
    requires
        st == fetches_all(embeddings_of_language_sql(col), seq![BindView::Text(language)]),
    ensures
        takes(st, "f.language = "@, BindView::Text(language)),
        says(st.sql, "AND NOT EXISTS ("@),
        says(st.sql, "WHERE p_dup.id < p.id"@),
        says(st.sql, "AND p_dup.git_common_dir = p.git_common_dir)"@),
        says(st.sql, "AND p_dup.git_root_commits = p.git_root_commits)"@),
        says(st.sql, "ORDER BY c.id"@),
        says(st.sql, "FROM file_chunks"@),
{
    embeddings_of_language_2_text();
    embeddings_of_language_3_text();
    let head = EMBEDDINGS_OF_LANGUAGE_1@ + col;
    let tail = col + EMBEDDINGS_OF_LANGUAGE_3@;
    assert(st.sql =~= head + EMBEDDINGS_OF_LANGUAGE_2@ + tail);
    lemma_within(st.sql, head, EMBEDDINGS_OF_LANGUAGE_2@, tail);
    let head = EMBEDDINGS_OF_LANGUAGE_1@ + col + EMBEDDINGS_OF_LANGUAGE_2@ + col;
    let tail = Seq::<char>::empty();
    assert(st.sql =~= head + EMBEDDINGS_OF_LANGUAGE_3@ + tail);
    lemma_within(st.sql, head, EMBEDDINGS_OF_LANGUAGE_3@, tail);
}

/// All embeddings are taken once among the working trees of a repository.
pub proof fn law_embeddings_come_once(col: Seq<char>, st: StatementView)
    requires
        st == fetches_all(all_embeddings_sql(col), seq![]),
    ensures
        says(st.sql, "AND NOT EXISTS ("@),
        says(st.sql, "WHERE p_dup.id < p.id"@),
        says(st.sql, "AND p_dup.git_common_dir = p.git_common_dir)"@),
        says(st.sql, "AND p_dup.git_root_commits = p.git_root_commits)"@),
        says(st.sql, "ORDER BY c.id"@),
        says(st.sql, "FROM file_chunks"@),
{
    all_embeddings_2_text();
    all_embeddings_3_text();
    let head = ALL_EMBEDDINGS_1@ + col;
    let tail = col + ALL_EMBEDDINGS_3@;
    assert(st.sql =~= head + ALL_EMBEDDINGS_2@ + tail);
    lemma_within(st.sql, head, ALL_EMBEDDINGS_2@, tail);
    let head = ALL_EMBEDDINGS_1@ + col + ALL_EMBEDDINGS_2@ + col;
    let tail = Seq::<char>::empty();
    assert(st.sql =~= head + ALL_EMBEDDINGS_3@ + tail);
    lemma_within(st.sql, head, ALL_EMBEDDINGS_3@, tail);
}

/// The embeddings of a language in a project are those of its files of that
/// language.
pub proof fn law_project_embeddings_are_of_the_language(col: Seq<char>, project: Seq<char>, language: Seq<char>, st: StatementView)
    requires
        st == fetches_all(
            project_language_embeddings_sql(col),
            seq![BindView::Text(project), BindView::Text(language)],
        ),
    ensures
        takes(st, "p.name = "@, BindView::Text(project)),
        takes(st, "f.language = "@, BindView::Text(language)),
        says(st.sql, "ORDER BY c.id"@),
        says(st.sql, "FROM file_chunks"@),
{
    project_language_embeddings_2_text();
    project_language_embeddings_3_text();
    let head = PROJECT_LANGUAGE_EMBEDDINGS_1@ + col;
    let tail = col + PROJECT_LANGUAGE_EMBEDDINGS_3@;
    assert(st.sql =~= head + PROJECT_LANGUAGE_EMBEDDINGS_2@ + tail);
    lemma_within(st.sql, head, PROJECT_LANGUAGE_EMBEDDINGS_2@, tail);
    let head = PROJECT_LANGUAGE_EMBEDDINGS_1@ + col + PROJECT_LANGUAGE_EMBEDDINGS_2@ + col;
    let tail = Seq::<char>::empty();
    assert(st.sql =~= head + PROJECT_LANGUAGE_EMBEDDINGS_3@ + tail);
    lemma_within(st.sql, head, PROJECT_LANGUAGE_EMBEDDINGS_3@, tail);
}

/// The embeddings of a project are those of its files.
pub proof fn law_project_embeddings_are_of_the_project(col: Seq<char>, project: Seq<char>, st: StatementView)
    requires
        st == fetches_all(project_embeddings_sql(col), seq![BindView::Text(project)]),
    ensures
        takes(st, "p.name = "@, BindView::Text(project)),
        says(st.sql, "ORDER BY c.id"@),
        says(st.sql, "FROM file_chunks"@),
{
    project_embeddings_2_text();
    project_embeddings_3_text();
    let head = PROJECT_EMBEDDINGS_1@ + col;
    let tail = col + PROJECT_EMBEDDINGS_3@;
    assert(st.sql =~= head + PROJECT_EMBEDDINGS_2@ + tail);
    lemma_within(st.sql, head, PROJECT_EMBEDDINGS_2@, tail);
    let head = PROJECT_EMBEDDINGS_1@ + col + PROJECT_EMBEDDINGS_2@ + col;
    let tail = Seq::<char>::empty();
    assert(st.sql =~= head + PROJECT_EMBEDDINGS_3@ + tail);
    lemma_within(st.sql, head, PROJECT_EMBEDDINGS_3@, tail);
}

/// The best chunk of each file is taken from the files that are asked for, by
/// its distance from the embedding that is supplied.
pub proof fn law_best_chunks_are_of_the_files(col: Seq<char>, file_ids: Seq<i64>, st: StatementView)
    requires
        st == fetches_all(
            best_chunk_sql(col),
            seq![BindView::Supplied(0), BindView::BigIntArray(file_ids)],
        ),
    ensures
        opens(st.sql, "SELECT DISTINCT ON"@),
        takes(st, "<=> "@, BindView::Supplied(0)),
        takes(st, "c.file_id = ANY("@, BindView::BigIntArray(file_ids)),
        says(st.sql, "ORDER BY c.file_id, c."@),
        says(st.sql, "FROM file_chunks"@),
{
    best_chunk_1_text();
    best_chunk_2_text();
    best_chunk_3_text();
    best_chunk_4_text();
    let head = Seq::<char>::empty();
    let tail = col + BEST_CHUNK_2@ + col + BEST_CHUNK_3@ + col + BEST_CHUNK_4@;
    assert(st.sql =~= head + BEST_CHUNK_1@ + tail);
    lemma_within(st.sql, head, BEST_CHUNK_1@, tail);
    let head = BEST_CHUNK_1@ + col;
    let tail = col + BEST_CHUNK_3@ + col + BEST_CHUNK_4@;
    assert(st.sql =~= head + BEST_CHUNK_2@ + tail);
    lemma_within(st.sql, head, BEST_CHUNK_2@, tail);
    let head = BEST_CHUNK_1@ + col + BEST_CHUNK_2@ + col;
    let tail = col + BEST_CHUNK_4@;
    assert(st.sql =~= head + BEST_CHUNK_3@ + tail);
    lemma_within(st.sql, head, BEST_CHUNK_3@, tail);
}

/// The features are those of the chunks that are asked for.
pub proof fn law_features_are_of_the_chunks(col: Seq<char>, chunk_ids: Seq<i64>, st: StatementView)
    requires
        st == fetches_all(rerank_sql(col), seq![BindView::BigIntArray(chunk_ids)]),
    ensures
        takes(st, "id = ANY("@, BindView::BigIntArray(chunk_ids)),
        says(st.sql, "FROM file_chunks"@),
{
    rerank_2_text();
    let head = RERANK_1@ + col;
    let tail = Seq::<char>::empty();
    assert(st.sql =~= head + RERANK_2@ + tail);
    lemma_within(st.sql, head, RERANK_2@, tail);
}

} // verus!
