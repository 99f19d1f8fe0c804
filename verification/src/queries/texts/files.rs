//! What the statements of `files` say.
use vstd::prelude::*;

use crate::meaning::{
    item, lined_up_at, lines_up, mentions, opens, part_at, past, past_blanks, says, takes,
};
use crate::queries::files::{
    first_colon, resolves_reference, DELETE_CHUNKS_BY_LANGUAGE_SQL, DELETE_FILES_BATCH_SQL,
    DELETE_FILES_BY_LANGUAGE_SQL, DELETE_FILE_CHUNKS_SQL, DELETE_FILE_SQL, DELETE_STALE_FILE_SQL,
    FILE_INFO_SQL, FINALIZE_FILE_HASH_SQL, FIND_CANONICAL_BY_CONTENT_HASH_SQL,
    FIND_FILES_BY_PATH_PATTERN_SQL, GET_ALL_FILE_METADATA_SQL, GET_CONTENT_HASH_SQL,
    GET_FILE_ID_BY_PATH_SQL, GET_FILE_LINE_COUNT_SQL, INSERT_DUPLICATE_FILE_SQL,
    LIST_FILE_PATHS_SQL, PROJECT_TREE_SQL, READ_FILE_BY_RELATIVE_PATH_SQL, READ_FILE_SQL,
    RESOLVE_BY_PATH_SQL, RESOLVE_IN_PROJECT_SQL, SEARCH_FILE_PATHS_SQL,
    UPDATE_FILE_PATH_IN_PLACE_SQL, UPSERT_FILE_SQL,
};
use crate::statement::BindView;

verus! {

/// What the text of [`GET_ALL_FILE_METADATA_SQL`] says.
pub proof fn get_all_file_metadata_text()
    ensures
        opens(GET_ALL_FILE_METADATA_SQL@, "SELECT"@),
        says(GET_ALL_FILE_METADATA_SQL@, "FROM indexed_files"@),
{
    reveal_strlit(
        "SELECT path, modified_at, size_bytes FROM indexed_files WHERE content_hash IS NOT NULL",
    );
    reveal_strlit("FROM indexed_files");
    reveal_strlit("SELECT");
    let t = GET_ALL_FILE_METADATA_SQL@;
    assert(part_at(t, 0, "SELECT"@));
    assert(part_at(t, 37, "FROM indexed_files"@));
}

/// What the text of [`UPSERT_FILE_SQL`] says.
#[verifier::rlimit(50)]
pub proof fn upsert_file_text()
    ensures
        opens(UPSERT_FILE_SQL@, "INSERT INTO indexed_files"@),
        lines_up(UPSERT_FILE_SQL@, "INSERT INTO indexed_files"@, "project_id"@, "VALUES ("@, 1),
        lines_up(UPSERT_FILE_SQL@, "INSERT INTO indexed_files"@, "path"@, "VALUES ("@, 2),
        lines_up(UPSERT_FILE_SQL@, "INSERT INTO indexed_files"@, "relative_path"@, "VALUES ("@, 3),
        lines_up(UPSERT_FILE_SQL@, "INSERT INTO indexed_files"@, "language"@, "VALUES ("@, 4),
        lines_up(UPSERT_FILE_SQL@, "INSERT INTO indexed_files"@, "size_bytes"@, "VALUES ("@, 5),
        lines_up(UPSERT_FILE_SQL@, "INSERT INTO indexed_files"@, "content"@, "VALUES ("@, 6),
        lines_up(UPSERT_FILE_SQL@, "INSERT INTO indexed_files"@, "content_hash"@, "VALUES ("@, 7),
        lines_up(UPSERT_FILE_SQL@, "INSERT INTO indexed_files"@, "line_count"@, "VALUES ("@, 8),
        lines_up(UPSERT_FILE_SQL@, "INSERT INTO indexed_files"@, "truncated"@, "VALUES ("@, 9),
        lines_up(
            UPSERT_FILE_SQL@,
            "INSERT INTO indexed_files"@,
            "content_recoverable_from_disk"@,
            "VALUES ("@,
            10,
        ),
        lines_up(UPSERT_FILE_SQL@, "INSERT INTO indexed_files"@, "modified_at"@, "VALUES ("@, 11),
        says(UPSERT_FILE_SQL@, "ON CONFLICT (path) DO UPDATE SET"@),
        says(UPSERT_FILE_SQL@, "project_id = EXCLUDED.project_id"@),
        says(UPSERT_FILE_SQL@, "relative_path = EXCLUDED.relative_path"@),
        says(UPSERT_FILE_SQL@, "language = EXCLUDED.language"@),
        says(UPSERT_FILE_SQL@, "size_bytes = EXCLUDED.size_bytes"@),
        says(UPSERT_FILE_SQL@, "content = EXCLUDED.content"@),
        says(UPSERT_FILE_SQL@, "content_hash = EXCLUDED.content_hash"@),
        says(UPSERT_FILE_SQL@, "line_count = EXCLUDED.line_count"@),
        says(UPSERT_FILE_SQL@, "truncated = EXCLUDED.truncated"@),
        says(
            UPSERT_FILE_SQL@,
            "content_recoverable_from_disk = EXCLUDED.content_recoverable_from_disk"@,
        ),
        says(UPSERT_FILE_SQL@, "modified_at = EXCLUDED.modified_at"@),
{
    reveal_strlit(
        "INSERT INTO indexed_files (project_id, path, relative_path, language, size_bytes, content, content_hash, line_count, truncated, content_recoverable_from_disk, modified_at)
         VALUES ($1, $2, $3, $4, $5, $6, $7, $8, $9, $10, $11)
         ON CONFLICT (path) DO UPDATE SET
            project_id = EXCLUDED.project_id,
            relative_path = EXCLUDED.relative_path,
            language = EXCLUDED.language,
            size_bytes = EXCLUDED.size_bytes,
            content = EXCLUDED.content,
            content_hash = EXCLUDED.content_hash,
            line_count = EXCLUDED.line_count,
            truncated = EXCLUDED.truncated,
            content_recoverable_from_disk = EXCLUDED.content_recoverable_from_disk,
            modified_at = EXCLUDED.modified_at,
            indexed_at = NOW()
         RETURNING id",
    );
    reveal_strlit("INSERT INTO indexed_files");
    reveal_strlit("ON CONFLICT (path) DO UPDATE SET");
    reveal_strlit("VALUES (");
    reveal_strlit("content");
    reveal_strlit("content = EXCLUDED.content");
    reveal_strlit("content_hash");
    reveal_strlit("content_hash = EXCLUDED.content_hash");
    reveal_strlit("content_recoverable_from_disk");
    reveal_strlit("content_recoverable_from_disk = EXCLUDED.content_recoverable_from_disk");
    reveal_strlit("language");
    reveal_strlit("language = EXCLUDED.language");
    reveal_strlit("line_count");
    reveal_strlit("line_count = EXCLUDED.line_count");
    reveal_strlit("modified_at");
    reveal_strlit("modified_at = EXCLUDED.modified_at");
    reveal_strlit("path");
    reveal_strlit("project_id");
    reveal_strlit("project_id = EXCLUDED.project_id");
    reveal_strlit("relative_path");
    reveal_strlit("relative_path = EXCLUDED.relative_path");
    reveal_strlit("size_bytes");
    reveal_strlit("size_bytes = EXCLUDED.size_bytes");
    reveal_strlit("truncated");
    reveal_strlit("truncated = EXCLUDED.truncated");
    let t = UPSERT_FILE_SQL@;
    assert(part_at(t, 0, "INSERT INTO indexed_files"@));
    reveal_with_fuel(past, 31);
    reveal_with_fuel(past_blanks, 2);
    assert(past(t, 25, '(') == 27);
    assert(item(t, 27, 0) == 27);
    assert(item(t, 27, 1) == 39);
    assert(item(t, 27, 2) == 45);
    assert(item(t, 27, 3) == 60);
    assert(item(t, 27, 4) == 70);
    assert(item(t, 27, 5) == 82);
    assert(item(t, 27, 6) == 91);
    assert(item(t, 27, 7) == 105);
    assert(item(t, 27, 8) == 117);
    assert(item(t, 27, 9) == 128);
    assert(item(t, 27, 10) == 159);
    assert(item(t, 189, 0) == 189);
    assert(item(t, 189, 1) == 193);
    assert(item(t, 189, 2) == 197);
    assert(item(t, 189, 3) == 201);
    assert(item(t, 189, 4) == 205);
    assert(item(t, 189, 5) == 209);
    assert(item(t, 189, 6) == 213);
    assert(item(t, 189, 7) == 217);
    assert(item(t, 189, 8) == 221);
    assert(item(t, 189, 9) == 225);
    assert(item(t, 189, 10) == 230);
    assert(lined_up_at(t, "INSERT INTO indexed_files"@, "project_id"@, "VALUES ("@, 1, 0, 181, 0));
    assert(lined_up_at(t, "INSERT INTO indexed_files"@, "path"@, "VALUES ("@, 2, 0, 181, 1));
    assert(lined_up_at(
        t,
        "INSERT INTO indexed_files"@,
        "relative_path"@,
        "VALUES ("@,
        3,
        0,
        181,
        2,
    ));
    assert(lined_up_at(t, "INSERT INTO indexed_files"@, "language"@, "VALUES ("@, 4, 0, 181, 3));
    assert(lined_up_at(t, "INSERT INTO indexed_files"@, "size_bytes"@, "VALUES ("@, 5, 0, 181, 4));
    assert(lined_up_at(t, "INSERT INTO indexed_files"@, "content"@, "VALUES ("@, 6, 0, 181, 5));
    assert(lined_up_at(
        t,
        "INSERT INTO indexed_files"@,
        "content_hash"@,
        "VALUES ("@,
        7,
        0,
        181,
        6,
    ));
    assert(lined_up_at(t, "INSERT INTO indexed_files"@, "line_count"@, "VALUES ("@, 8, 0, 181, 7));
    assert(lined_up_at(t, "INSERT INTO indexed_files"@, "truncated"@, "VALUES ("@, 9, 0, 181, 8));
    assert(lined_up_at(
        t,
        "INSERT INTO indexed_files"@,
        "content_recoverable_from_disk"@,
        "VALUES ("@,
        10,
        0,
        181,
        9,
    ));
    assert(lined_up_at(
        t,
        "INSERT INTO indexed_files"@,
        "modified_at"@,
        "VALUES ("@,
        11,
        0,
        181,
        10,
    ));
    assert(part_at(t, 244, "ON CONFLICT (path) DO UPDATE SET"@));
    assert(part_at(t, 289, "project_id = EXCLUDED.project_id"@));
    assert(part_at(t, 335, "relative_path = EXCLUDED.relative_path"@));
    assert(part_at(t, 387, "language = EXCLUDED.language"@));
    assert(part_at(t, 429, "size_bytes = EXCLUDED.size_bytes"@));
    assert(part_at(t, 475, "content = EXCLUDED.content"@));
    assert(part_at(t, 515, "content_hash = EXCLUDED.content_hash"@));
    assert(part_at(t, 565, "line_count = EXCLUDED.line_count"@));
    assert(part_at(t, 611, "truncated = EXCLUDED.truncated"@));
    assert(part_at(
        t,
        655,
        "content_recoverable_from_disk = EXCLUDED.content_recoverable_from_disk"@,
    ));
    assert(part_at(t, 739, "modified_at = EXCLUDED.modified_at"@));
}

/// What the text of [`GET_CONTENT_HASH_SQL`] says.
pub proof fn get_content_hash_text()
    ensures
        opens(GET_CONTENT_HASH_SQL@, "SELECT"@),
        mentions(GET_CONTENT_HASH_SQL@, "path = "@, 1),
        says(GET_CONTENT_HASH_SQL@, "FROM indexed_files"@),
{
    reveal_strlit(
        "SELECT content_hash FROM indexed_files WHERE path = $1",
    );
    reveal_strlit("FROM indexed_files");
    reveal_strlit("SELECT");
    reveal_strlit("path = ");
    let t = GET_CONTENT_HASH_SQL@;
    assert(part_at(t, 0, "SELECT"@));
    assert(part_at(t, 45, "path = "@));
    assert(part_at(t, 20, "FROM indexed_files"@));
}

/// What the text of [`FINALIZE_FILE_HASH_SQL`] says.
pub proof fn finalize_file_hash_text()
    ensures
        opens(FINALIZE_FILE_HASH_SQL@, "UPDATE indexed_files"@),
        mentions(FINALIZE_FILE_HASH_SQL@, "content_hash = "@, 1),
        mentions(FINALIZE_FILE_HASH_SQL@, "$1 WHERE id = "@, 2),
{
    reveal_strlit(
        "UPDATE indexed_files SET content_hash = $1 WHERE id = $2",
    );
    reveal_strlit("$1 WHERE id = ");
    reveal_strlit("UPDATE indexed_files");
    reveal_strlit("content_hash = ");
    let t = FINALIZE_FILE_HASH_SQL@;
    assert(part_at(t, 0, "UPDATE indexed_files"@));
    assert(part_at(t, 25, "content_hash = "@));
    assert(part_at(t, 40, "$1 WHERE id = "@));
}

/// What the text of [`DELETE_FILE_CHUNKS_SQL`] says.
pub proof fn delete_file_chunks_text()
    ensures
        opens(DELETE_FILE_CHUNKS_SQL@, "DELETE FROM file_chunks"@),
        mentions(DELETE_FILE_CHUNKS_SQL@, "file_id = "@, 1),
{
    reveal_strlit(
        "DELETE FROM file_chunks WHERE file_id = $1",
    );
    reveal_strlit("DELETE FROM file_chunks");
    reveal_strlit("file_id = ");
    let t = DELETE_FILE_CHUNKS_SQL@;
    assert(part_at(t, 0, "DELETE FROM file_chunks"@));
    assert(part_at(t, 30, "file_id = "@));
}

/// What the text of [`DELETE_FILE_SQL`] says.
pub proof fn delete_file_text()
    ensures
        opens(DELETE_FILE_SQL@, "DELETE FROM indexed_files"@),
        mentions(DELETE_FILE_SQL@, "path = "@, 1),
{
    reveal_strlit(
        "DELETE FROM indexed_files WHERE path = $1",
    );
    reveal_strlit("DELETE FROM indexed_files");
    reveal_strlit("path = ");
    let t = DELETE_FILE_SQL@;
    assert(part_at(t, 0, "DELETE FROM indexed_files"@));
    assert(part_at(t, 32, "path = "@));
}

/// What the text of [`DELETE_FILES_BATCH_SQL`] says.
pub proof fn delete_files_batch_text()
    ensures
        opens(DELETE_FILES_BATCH_SQL@, "DELETE FROM indexed_files"@),
        mentions(DELETE_FILES_BATCH_SQL@, "path = ANY("@, 1),
{
    reveal_strlit(
        "DELETE FROM indexed_files WHERE path = ANY($1)",
    );
    reveal_strlit("DELETE FROM indexed_files");
    reveal_strlit("path = ANY(");
    let t = DELETE_FILES_BATCH_SQL@;
    assert(part_at(t, 0, "DELETE FROM indexed_files"@));
    assert(part_at(t, 32, "path = ANY("@));
}

/// What the text of [`DELETE_CHUNKS_BY_LANGUAGE_SQL`] says.
pub proof fn delete_chunks_by_language_text()
    ensures
        opens(DELETE_CHUNKS_BY_LANGUAGE_SQL@, "DELETE FROM file_chunks"@),
        mentions(DELETE_CHUNKS_BY_LANGUAGE_SQL@, "language = "@, 1),
{
    reveal_strlit(
        "DELETE FROM file_chunks WHERE file_id IN \
         (SELECT id FROM indexed_files WHERE language = $1)",
    );
    reveal_strlit("DELETE FROM file_chunks");
    reveal_strlit("language = ");
    let t = DELETE_CHUNKS_BY_LANGUAGE_SQL@;
    assert(part_at(t, 0, "DELETE FROM file_chunks"@));
    assert(part_at(t, 77, "language = "@));
}

/// What the text of [`DELETE_FILES_BY_LANGUAGE_SQL`] says.
pub proof fn delete_files_by_language_text()
    ensures
        opens(DELETE_FILES_BY_LANGUAGE_SQL@, "DELETE FROM indexed_files"@),
        mentions(DELETE_FILES_BY_LANGUAGE_SQL@, "language = "@, 1),
{
    reveal_strlit(
        "DELETE FROM indexed_files WHERE language = $1",
    );
    reveal_strlit("DELETE FROM indexed_files");
    reveal_strlit("language = ");
    let t = DELETE_FILES_BY_LANGUAGE_SQL@;
    assert(part_at(t, 0, "DELETE FROM indexed_files"@));
    assert(part_at(t, 32, "language = "@));
}

/// What the text of [`READ_FILE_SQL`] says.
pub proof fn read_file_text()
    ensures
        opens(READ_FILE_SQL@, "SELECT"@),
        mentions(READ_FILE_SQL@, "path = "@, 1),
        says(READ_FILE_SQL@, "FROM indexed_files"@),
{
    reveal_strlit(
        "SELECT path, relative_path, language, content, size_bytes, line_count, truncated,
                content_recoverable_from_disk, content_hash
         FROM indexed_files WHERE path = $1",
    );
    reveal_strlit("FROM indexed_files");
    reveal_strlit("SELECT");
    reveal_strlit("path = ");
    let t = READ_FILE_SQL@;
    assert(part_at(t, 0, "SELECT"@));
    assert(part_at(t, 176, "path = "@));
    assert(part_at(t, 151, "FROM indexed_files"@));
}

/// What the text of [`READ_FILE_BY_RELATIVE_PATH_SQL`] says.
pub proof fn read_file_by_relative_path_text()
    ensures
        opens(READ_FILE_BY_RELATIVE_PATH_SQL@, "SELECT"@),
        mentions(READ_FILE_BY_RELATIVE_PATH_SQL@, "relative_path = "@, 1),
        says(READ_FILE_BY_RELATIVE_PATH_SQL@, "FROM indexed_files"@),
{
    reveal_strlit(
        "SELECT path, relative_path, language, content, size_bytes, line_count, truncated,
                content_recoverable_from_disk, content_hash
         FROM indexed_files WHERE relative_path = $1",
    );
    reveal_strlit("FROM indexed_files");
    reveal_strlit("SELECT");
    reveal_strlit("relative_path = ");
    let t = READ_FILE_BY_RELATIVE_PATH_SQL@;
    assert(part_at(t, 0, "SELECT"@));
    assert(part_at(t, 176, "relative_path = "@));
    assert(part_at(t, 151, "FROM indexed_files"@));
}

/// What the text of [`FILE_INFO_SQL`] says.
pub proof fn file_info_text()
    ensures
        opens(FILE_INFO_SQL@, "SELECT"@),
        mentions(FILE_INFO_SQL@, "f.path = "@, 1),
        says(FILE_INFO_SQL@, "FROM indexed_files"@),
        says(FILE_INFO_SQL@, "LEFT JOIN projects p ON p.id = f.project_id"@),
{
    reveal_strlit(
        "SELECT f.path, f.relative_path, f.language, f.size_bytes, f.line_count,
                f.truncated, f.indexed_at, f.modified_at, p.name AS project_name
         FROM indexed_files f
         LEFT JOIN projects p ON p.id = f.project_id
         WHERE f.path = $1",
    );
    reveal_strlit("FROM indexed_files");
    reveal_strlit("LEFT JOIN projects p ON p.id = f.project_id");
    reveal_strlit("SELECT");
    reveal_strlit("f.path = ");
    let t = FILE_INFO_SQL@;
    assert(part_at(t, 0, "SELECT"@));
    assert(part_at(t, 251, "f.path = "@));
    assert(part_at(t, 162, "FROM indexed_files"@));
    assert(part_at(t, 192, "LEFT JOIN projects p ON p.id = f.project_id"@));
}

/// What the text of [`PROJECT_TREE_SQL`] says.
pub proof fn project_tree_text()
    ensures
        opens(PROJECT_TREE_SQL@, "WITH"@),
        mentions(PROJECT_TREE_SQL@, "name = "@, 1),
        says(PROJECT_TREE_SQL@, "ORDER BY f.relative_path NULLS LAST"@),
        says(PROJECT_TREE_SQL@, "FROM projects"@),
        says(PROJECT_TREE_SQL@, "LEFT JOIN indexed_files f"@),
{
    reveal_strlit(
        "WITH matching_projects AS (
             SELECT id
             FROM projects
             WHERE name = $1
         ),
         project_match AS (
             SELECT COUNT(*)::int8 AS match_count, MIN(id) AS project_id
             FROM matching_projects
         )
         SELECT pm.match_count, f.relative_path
         FROM project_match pm
         LEFT JOIN indexed_files f
           ON pm.match_count = 1 AND f.project_id = pm.project_id
         ORDER BY f.relative_path NULLS LAST",
    );
    reveal_strlit("FROM projects");
    reveal_strlit("LEFT JOIN indexed_files f");
    reveal_strlit("ORDER BY f.relative_path NULLS LAST");
    reveal_strlit("WITH");
    reveal_strlit("name = ");
    let t = PROJECT_TREE_SQL@;
    assert(part_at(t, 0, "WITH"@));
    assert(part_at(t, 97, "name = "@));
    assert(part_at(t, 456, "ORDER BY f.relative_path NULLS LAST"@));
    assert(part_at(t, 64, "FROM projects"@));
    assert(part_at(t, 355, "LEFT JOIN indexed_files f"@));
}

/// What the text of [`SEARCH_FILE_PATHS_SQL`] says.
pub proof fn search_file_paths_text()
    ensures
        opens(SEARCH_FILE_PATHS_SQL@, "SELECT"@),
        mentions(SEARCH_FILE_PATHS_SQL@, "relative_path LIKE "@, 1),
        mentions(SEARCH_FILE_PATHS_SQL@, "LIMIT "@, 2),
        says(SEARCH_FILE_PATHS_SQL@, "FROM indexed_files"@),
{
    reveal_strlit(
        "SELECT relative_path FROM indexed_files WHERE relative_path LIKE $1 ORDER BY relative_path LIMIT $2",
    );
    reveal_strlit("FROM indexed_files");
    reveal_strlit("LIMIT ");
    reveal_strlit("SELECT");
    reveal_strlit("relative_path LIKE ");
    let t = SEARCH_FILE_PATHS_SQL@;
    assert(part_at(t, 0, "SELECT"@));
    assert(part_at(t, 46, "relative_path LIKE "@));
    assert(part_at(t, 91, "LIMIT "@));
    assert(part_at(t, 21, "FROM indexed_files"@));
}

/// What the text of [`GET_FILE_ID_BY_PATH_SQL`] says.
pub proof fn get_file_id_by_path_text()
    ensures
        opens(GET_FILE_ID_BY_PATH_SQL@, "SELECT"@),
        mentions(GET_FILE_ID_BY_PATH_SQL@, "path = "@, 1),
        says(GET_FILE_ID_BY_PATH_SQL@, "FROM indexed_files"@),
{
    reveal_strlit(
        "SELECT id FROM indexed_files WHERE path = $1",
    );
    reveal_strlit("FROM indexed_files");
    reveal_strlit("SELECT");
    reveal_strlit("path = ");
    let t = GET_FILE_ID_BY_PATH_SQL@;
    assert(part_at(t, 0, "SELECT"@));
    assert(part_at(t, 35, "path = "@));
    assert(part_at(t, 10, "FROM indexed_files"@));
}

/// What the text of [`RESOLVE_IN_PROJECT_SQL`] says.
#[verifier::rlimit(50)]
pub proof fn resolve_in_project_text()
    ensures
        opens(RESOLVE_IN_PROJECT_SQL@, "WITH"@),
        mentions(RESOLVE_IN_PROJECT_SQL@, "name = "@, 1),
        mentions(RESOLVE_IN_PROJECT_SQL@, "f.relative_path = "@, 2),
        says(RESOLVE_IN_PROJECT_SQL@, "WHERE (SELECT COUNT(*) FROM matching_projects) = 1"@),
        says(RESOLVE_IN_PROJECT_SQL@, "FROM projects"@),
        says(RESOLVE_IN_PROJECT_SQL@, "JOIN unique_project p ON p.id = f.project_id"@),
{
    reveal_strlit(
        "WITH matching_projects AS (
                 SELECT id, name
                 FROM projects
                 WHERE name = $1
             ),
             unique_project AS (
                 SELECT id, name
                 FROM matching_projects
                 WHERE (SELECT COUNT(*) FROM matching_projects) = 1
             )
             SELECT f.id as file_id, f.path, f.relative_path, f.language, f.line_count,
                    p.id as project_id, p.name as project_name
             FROM indexed_files f
             JOIN unique_project p ON p.id = f.project_id
             WHERE f.relative_path = $2",
    );
    reveal_strlit("FROM projects");
    reveal_strlit("JOIN unique_project p ON p.id = f.project_id");
    reveal_strlit("WHERE (SELECT COUNT(*) FROM matching_projects) = 1");
    reveal_strlit("WITH");
    reveal_strlit("f.relative_path = ");
    reveal_strlit("name = ");
    let t = RESOLVE_IN_PROJECT_SQL@;
    assert(part_at(t, 0, "WITH"@));
    assert(part_at(t, 115, "name = "@));
    assert(part_at(t, 592, "f.relative_path = "@));
    assert(part_at(t, 264, "WHERE (SELECT COUNT(*) FROM matching_projects) = 1"@));
    assert(part_at(t, 78, "FROM projects"@));
    assert(part_at(t, 528, "JOIN unique_project p ON p.id = f.project_id"@));
}

/// What the text of [`RESOLVE_BY_PATH_SQL`] says.
pub proof fn resolve_by_path_text()
    ensures
        opens(RESOLVE_BY_PATH_SQL@, "SELECT"@),
        mentions(RESOLVE_BY_PATH_SQL@, "f.path = "@, 1),
        says(RESOLVE_BY_PATH_SQL@, "FROM indexed_files"@),
        says(RESOLVE_BY_PATH_SQL@, "JOIN projects p ON p.id = f.project_id"@),
{
    reveal_strlit(
        "SELECT f.id as file_id, f.path, f.relative_path, f.language, f.line_count,
                    p.id as project_id, p.name as project_name
             FROM indexed_files f
             JOIN projects p ON p.id = f.project_id
             WHERE f.path = $1",
    );
    reveal_strlit("FROM indexed_files");
    reveal_strlit("JOIN projects p ON p.id = f.project_id");
    reveal_strlit("SELECT");
    reveal_strlit("f.path = ");
    let t = RESOLVE_BY_PATH_SQL@;
    assert(part_at(t, 0, "SELECT"@));
    assert(part_at(t, 243, "f.path = "@));
    assert(part_at(t, 151, "FROM indexed_files"@));
    assert(part_at(t, 185, "JOIN projects p ON p.id = f.project_id"@));
}

/// What the text of [`FIND_CANONICAL_BY_CONTENT_HASH_SQL`] says.
pub proof fn find_canonical_by_content_hash_text()
    ensures
        opens(FIND_CANONICAL_BY_CONTENT_HASH_SQL@, "SELECT"@),
        mentions(FIND_CANONICAL_BY_CONTENT_HASH_SQL@, "project_id = "@, 1),
        mentions(FIND_CANONICAL_BY_CONTENT_HASH_SQL@, "content_hash = "@, 2),
        says(FIND_CANONICAL_BY_CONTENT_HASH_SQL@, "AND duplicate_of_file_id IS NULL"@),
        says(FIND_CANONICAL_BY_CONTENT_HASH_SQL@, "ORDER BY id ASC"@),
        says(FIND_CANONICAL_BY_CONTENT_HASH_SQL@, "FROM indexed_files"@),
{
    reveal_strlit(
        "SELECT id, path, content_hash
         FROM indexed_files
         WHERE project_id = $1
           AND content_hash = $2
           AND duplicate_of_file_id IS NULL
         ORDER BY id ASC
         LIMIT 1",
    );
    reveal_strlit("AND duplicate_of_file_id IS NULL");
    reveal_strlit("FROM indexed_files");
    reveal_strlit("ORDER BY id ASC");
    reveal_strlit("SELECT");
    reveal_strlit("content_hash = ");
    reveal_strlit("project_id = ");
    let t = FIND_CANONICAL_BY_CONTENT_HASH_SQL@;
    assert(part_at(t, 0, "SELECT"@));
    assert(part_at(t, 73, "project_id = "@));
    assert(part_at(t, 104, "content_hash = "@));
    assert(part_at(t, 133, "AND duplicate_of_file_id IS NULL"@));
    assert(part_at(t, 175, "ORDER BY id ASC"@));
    assert(part_at(t, 39, "FROM indexed_files"@));
}

/// What the text of [`UPDATE_FILE_PATH_IN_PLACE_SQL`] says.
pub proof fn update_file_path_in_place_text()
    ensures
        opens(UPDATE_FILE_PATH_IN_PLACE_SQL@, "UPDATE indexed_files"@),
        mentions(UPDATE_FILE_PATH_IN_PLACE_SQL@, "WHERE id = "@, 1),
        mentions(UPDATE_FILE_PATH_IN_PLACE_SQL@, "path = "@, 2),
        mentions(UPDATE_FILE_PATH_IN_PLACE_SQL@, "relative_path = "@, 3),
        mentions(UPDATE_FILE_PATH_IN_PLACE_SQL@, "modified_at = "@, 4),
{
    reveal_strlit(
        "UPDATE indexed_files
         SET path = $2, relative_path = $3, modified_at = $4, indexed_at = NOW()
         WHERE id = $1",
    );
    reveal_strlit("UPDATE indexed_files");
    reveal_strlit("WHERE id = ");
    reveal_strlit("modified_at = ");
    reveal_strlit("path = ");
    reveal_strlit("relative_path = ");
    let t = UPDATE_FILE_PATH_IN_PLACE_SQL@;
    assert(part_at(t, 0, "UPDATE indexed_files"@));
    assert(part_at(t, 111, "WHERE id = "@));
    assert(part_at(t, 34, "path = "@));
    assert(part_at(t, 45, "relative_path = "@));
    assert(part_at(t, 65, "modified_at = "@));
}

/// What the text of [`INSERT_DUPLICATE_FILE_SQL`] says.
#[verifier::rlimit(50)]
pub proof fn insert_duplicate_file_text()
    ensures
        opens(INSERT_DUPLICATE_FILE_SQL@, "INSERT INTO indexed_files"@),
        lines_up(
            INSERT_DUPLICATE_FILE_SQL@,
            "INSERT INTO indexed_files"@,
            "project_id"@,
            "VALUES ("@,
            1,
        ),
        lines_up(INSERT_DUPLICATE_FILE_SQL@, "INSERT INTO indexed_files"@, "path"@, "VALUES ("@, 2),
        lines_up(
            INSERT_DUPLICATE_FILE_SQL@,
            "INSERT INTO indexed_files"@,
            "relative_path"@,
            "VALUES ("@,
            3,
        ),
        lines_up(
            INSERT_DUPLICATE_FILE_SQL@,
            "INSERT INTO indexed_files"@,
            "language"@,
            "VALUES ("@,
            4,
        ),
        lines_up(
            INSERT_DUPLICATE_FILE_SQL@,
            "INSERT INTO indexed_files"@,
            "size_bytes"@,
            "VALUES ("@,
            5,
        ),
        lines_up(
            INSERT_DUPLICATE_FILE_SQL@,
            "INSERT INTO indexed_files"@,
            "content_hash"@,
            "VALUES ("@,
            6,
        ),
        lines_up(
            INSERT_DUPLICATE_FILE_SQL@,
            "INSERT INTO indexed_files"@,
            "modified_at"@,
            "VALUES ("@,
            7,
        ),
        lines_up(
            INSERT_DUPLICATE_FILE_SQL@,
            "INSERT INTO indexed_files"@,
            "duplicate_of_file_id"@,
            "VALUES ("@,
            8,
        ),
        says(INSERT_DUPLICATE_FILE_SQL@, "ON CONFLICT (path) DO UPDATE SET"@),
        says(INSERT_DUPLICATE_FILE_SQL@, "project_id = EXCLUDED.project_id"@),
        says(INSERT_DUPLICATE_FILE_SQL@, "relative_path = EXCLUDED.relative_path"@),
        says(INSERT_DUPLICATE_FILE_SQL@, "language = EXCLUDED.language"@),
        says(INSERT_DUPLICATE_FILE_SQL@, "size_bytes = EXCLUDED.size_bytes"@),
        says(INSERT_DUPLICATE_FILE_SQL@, "content_hash = EXCLUDED.content_hash"@),
        says(INSERT_DUPLICATE_FILE_SQL@, "modified_at = EXCLUDED.modified_at"@),
        says(INSERT_DUPLICATE_FILE_SQL@, "duplicate_of_file_id = EXCLUDED.duplicate_of_file_id"@),
{
    reveal_strlit(
        "INSERT INTO indexed_files (
            project_id, path, relative_path, language, size_bytes,
            content, content_hash, line_count, truncated, modified_at,
            duplicate_of_file_id
         )
         VALUES ($1, $2, $3, $4, $5, NULL, $6, 0, false, $7, $8)
         ON CONFLICT (path) DO UPDATE SET
            project_id = EXCLUDED.project_id,
            relative_path = EXCLUDED.relative_path,
            language = EXCLUDED.language,
            size_bytes = EXCLUDED.size_bytes,
            content_hash = EXCLUDED.content_hash,
            modified_at = EXCLUDED.modified_at,
            duplicate_of_file_id = EXCLUDED.duplicate_of_file_id,
            indexed_at = NOW()
         RETURNING id",
    );
    reveal_strlit("INSERT INTO indexed_files");
    reveal_strlit("ON CONFLICT (path) DO UPDATE SET");
    reveal_strlit("VALUES (");
    reveal_strlit("content_hash");
    reveal_strlit("content_hash = EXCLUDED.content_hash");
    reveal_strlit("duplicate_of_file_id");
    reveal_strlit("duplicate_of_file_id = EXCLUDED.duplicate_of_file_id");
    reveal_strlit("language");
    reveal_strlit("language = EXCLUDED.language");
    reveal_strlit("modified_at");
    reveal_strlit("modified_at = EXCLUDED.modified_at");
    reveal_strlit("path");
    reveal_strlit("project_id");
    reveal_strlit("project_id = EXCLUDED.project_id");
    reveal_strlit("relative_path");
    reveal_strlit("relative_path = EXCLUDED.relative_path");
    reveal_strlit("size_bytes");
    reveal_strlit("size_bytes = EXCLUDED.size_bytes");
    let t = INSERT_DUPLICATE_FILE_SQL@;
    assert(part_at(t, 0, "INSERT INTO indexed_files"@));
    reveal_with_fuel(past, 15);
    reveal_with_fuel(past_blanks, 14);
    assert(past(t, 25, '(') == 27);
    assert(item(t, 27, 0) == 40);
    assert(item(t, 27, 1) == 52);
    assert(item(t, 27, 2) == 58);
    assert(item(t, 27, 3) == 73);
    assert(item(t, 27, 4) == 83);
    assert(item(t, 27, 5) == 107);
    assert(item(t, 27, 6) == 116);
    assert(item(t, 27, 7) == 130);
    assert(item(t, 27, 8) == 142);
    assert(item(t, 27, 9) == 153);
    assert(item(t, 27, 10) == 178);
    assert(item(t, 227, 0) == 227);
    assert(item(t, 227, 1) == 231);
    assert(item(t, 227, 2) == 235);
    assert(item(t, 227, 3) == 239);
    assert(item(t, 227, 4) == 243);
    assert(item(t, 227, 5) == 247);
    assert(item(t, 227, 6) == 253);
    assert(item(t, 227, 7) == 257);
    assert(item(t, 227, 8) == 260);
    assert(item(t, 227, 9) == 267);
    assert(item(t, 227, 10) == 271);
    assert(lined_up_at(t, "INSERT INTO indexed_files"@, "project_id"@, "VALUES ("@, 1, 0, 219, 0));
    assert(lined_up_at(t, "INSERT INTO indexed_files"@, "path"@, "VALUES ("@, 2, 0, 219, 1));
    assert(lined_up_at(
        t,
        "INSERT INTO indexed_files"@,
        "relative_path"@,
        "VALUES ("@,
        3,
        0,
        219,
        2,
    ));
    assert(lined_up_at(t, "INSERT INTO indexed_files"@, "language"@, "VALUES ("@, 4, 0, 219, 3));
    assert(lined_up_at(t, "INSERT INTO indexed_files"@, "size_bytes"@, "VALUES ("@, 5, 0, 219, 4));
    assert(lined_up_at(
        t,
        "INSERT INTO indexed_files"@,
        "content_hash"@,
        "VALUES ("@,
        6,
        0,
        219,
        6,
    ));
    assert(lined_up_at(t, "INSERT INTO indexed_files"@, "modified_at"@, "VALUES ("@, 7, 0, 219, 9));
    assert(lined_up_at(
        t,
        "INSERT INTO indexed_files"@,
        "duplicate_of_file_id"@,
        "VALUES ("@,
        8,
        0,
        219,
        10,
    ));
    assert(part_at(t, 284, "ON CONFLICT (path) DO UPDATE SET"@));
    assert(part_at(t, 329, "project_id = EXCLUDED.project_id"@));
    assert(part_at(t, 375, "relative_path = EXCLUDED.relative_path"@));
    assert(part_at(t, 427, "language = EXCLUDED.language"@));
    assert(part_at(t, 469, "size_bytes = EXCLUDED.size_bytes"@));
    assert(part_at(t, 515, "content_hash = EXCLUDED.content_hash"@));
    assert(part_at(t, 565, "modified_at = EXCLUDED.modified_at"@));
    assert(part_at(t, 613, "duplicate_of_file_id = EXCLUDED.duplicate_of_file_id"@));
}

/// What the text of [`GET_FILE_LINE_COUNT_SQL`] says.
pub proof fn get_file_line_count_text()
    ensures
        opens(GET_FILE_LINE_COUNT_SQL@, "SELECT"@),
        mentions(GET_FILE_LINE_COUNT_SQL@, "indexed_files WHERE id = "@, 1),
        says(GET_FILE_LINE_COUNT_SQL@, "FROM indexed_files"@),
{
    reveal_strlit(
        "SELECT line_count FROM indexed_files WHERE id = $1",
    );
    reveal_strlit("FROM indexed_files");
    reveal_strlit("SELECT");
    reveal_strlit("indexed_files WHERE id = ");
    let t = GET_FILE_LINE_COUNT_SQL@;
    assert(part_at(t, 0, "SELECT"@));
    assert(part_at(t, 23, "indexed_files WHERE id = "@));
    assert(part_at(t, 18, "FROM indexed_files"@));
}

/// What the text of [`FIND_FILES_BY_PATH_PATTERN_SQL`] says.
pub proof fn find_files_by_path_pattern_text()
    ensures
        opens(FIND_FILES_BY_PATH_PATTERN_SQL@, "SELECT"@),
        mentions(FIND_FILES_BY_PATH_PATTERN_SQL@, "p.name = "@, 1),
        mentions(FIND_FILES_BY_PATH_PATTERN_SQL@, "f.relative_path LIKE "@, 2),
        says(FIND_FILES_BY_PATH_PATTERN_SQL@, "ORDER BY f.relative_path"@),
        says(FIND_FILES_BY_PATH_PATTERN_SQL@, "FROM indexed_files"@),
        says(FIND_FILES_BY_PATH_PATTERN_SQL@, "JOIN projects p ON p.id = f.project_id"@),
{
    reveal_strlit(
        "SELECT f.id as file_id, f.path, f.relative_path, f.language, f.line_count,
                p.id as project_id, p.name as project_name
         FROM indexed_files f
         JOIN projects p ON p.id = f.project_id
         WHERE p.name = $1 AND f.relative_path LIKE $2
         ORDER BY f.relative_path",
    );
    reveal_strlit("FROM indexed_files");
    reveal_strlit("JOIN projects p ON p.id = f.project_id");
    reveal_strlit("ORDER BY f.relative_path");
    reveal_strlit("SELECT");
    reveal_strlit("f.relative_path LIKE ");
    reveal_strlit("p.name = ");
    let t = FIND_FILES_BY_PATH_PATTERN_SQL@;
    assert(part_at(t, 0, "SELECT"@));
    assert(part_at(t, 227, "p.name = "@));
    assert(part_at(t, 243, "f.relative_path LIKE "@));
    assert(part_at(t, 276, "ORDER BY f.relative_path"@));
    assert(part_at(t, 143, "FROM indexed_files"@));
    assert(part_at(t, 173, "JOIN projects p ON p.id = f.project_id"@));
}

/// What the text of [`LIST_FILE_PATHS_SQL`] says.
pub proof fn list_file_paths_text()
    ensures
        opens(LIST_FILE_PATHS_SQL@, "SELECT"@),
        says(LIST_FILE_PATHS_SQL@, "FROM indexed_files"@),
{
    reveal_strlit(
        "SELECT path FROM indexed_files",
    );
    reveal_strlit("FROM indexed_files");
    reveal_strlit("SELECT");
    let t = LIST_FILE_PATHS_SQL@;
    assert(part_at(t, 0, "SELECT"@));
    assert(part_at(t, 12, "FROM indexed_files"@));
}

/// What the text of [`DELETE_STALE_FILE_SQL`] says.
pub proof fn delete_stale_file_text()
    ensures
        opens(DELETE_STALE_FILE_SQL@, "DELETE FROM indexed_files"@),
        mentions(DELETE_STALE_FILE_SQL@, "path = "@, 1),
{
    reveal_strlit(
        "DELETE FROM indexed_files WHERE path = $1",
    );
    reveal_strlit("DELETE FROM indexed_files");
    reveal_strlit("path = ");
    let t = DELETE_STALE_FILE_SQL@;
    assert(part_at(t, 0, "DELETE FROM indexed_files"@));
    assert(part_at(t, 32, "path = "@));
}

/// What stands before the first colon of a reference is the project, what stands
/// behind it the path in the project; without a colon it is a path.
pub proof fn law_reference_names_project_and_path(file_ref: Seq<char>)
    ensures
        first_colon(file_ref) is Some ==> opens(resolves_reference(file_ref).sql, "WITH"@),
        first_colon(file_ref) is Some ==> takes(
            resolves_reference(file_ref),
            "name = "@,
            BindView::Text(file_ref.take(first_colon(file_ref)->0)),
        ),
        first_colon(file_ref) is Some ==> takes(
            resolves_reference(file_ref),
            "f.relative_path = "@,
            BindView::Text(file_ref.skip(first_colon(file_ref)->0 + 1)),
        ),
        first_colon(file_ref) is Some ==> says(
            resolves_reference(file_ref).sql,
            "WHERE (SELECT COUNT(*) FROM matching_projects) = 1"@,
        ),
        first_colon(file_ref) is Some ==> says(resolves_reference(file_ref).sql, "FROM projects"@),
        first_colon(file_ref) is Some ==> says(
            resolves_reference(file_ref).sql,
            "JOIN unique_project p ON p.id = f.project_id"@,
        ),
        first_colon(file_ref) is None ==> opens(resolves_reference(file_ref).sql, "SELECT"@),
        first_colon(file_ref) is None ==> takes(
            resolves_reference(file_ref),
            "f.path = "@,
            BindView::Text(file_ref),
        ),
        first_colon(file_ref) is None ==> says(
            resolves_reference(file_ref).sql,
            "FROM indexed_files"@,
        ),
        first_colon(file_ref) is None ==> says(
            resolves_reference(file_ref).sql,
            "JOIN projects p ON p.id = f.project_id"@,
        ),
{
    if first_colon(file_ref) is Some {
        resolve_in_project_text();
        assert(resolves_reference(file_ref).sql == RESOLVE_IN_PROJECT_SQL@);
    }
    if first_colon(file_ref) is None {
        resolve_by_path_text();
        assert(resolves_reference(file_ref).sql == RESOLVE_BY_PATH_SQL@);
    }
}

} // verus!
