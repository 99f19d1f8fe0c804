//! Indexed files: their data, look-up by path, and removal.
use vstd::prelude::*;

use crate::meaning::{fills, opens, says, takes};
use crate::protocol::{statement_views, ProtocolError};
use crate::queries::index_failures::{clear_index_failure, clears_failure_of};
use crate::queries::texts::files::{
    delete_chunks_by_language_text, delete_file_chunks_text, delete_file_text,
    delete_files_batch_text, delete_files_by_language_text, delete_stale_file_text, file_info_text,
    finalize_file_hash_text, find_canonical_by_content_hash_text, find_files_by_path_pattern_text,
    get_all_file_metadata_text, get_content_hash_text, get_file_id_by_path_text,
    get_file_line_count_text, insert_duplicate_file_text, law_reference_names_project_and_path,
    list_file_paths_text, project_tree_text, read_file_by_relative_path_text, read_file_text,
    search_file_paths_text, update_file_path_in_place_text, upsert_file_text,
};
use crate::queries::texts::index_failures::law_clears_failure_of_stands_for_its_values;
use crate::search_pattern::{anywhere, anywhere_pattern, prefix_pattern, starting_with};
use crate::statement::{
    executes, fetches_all, fetches_one, fetches_optional, opt_str, opt_text, texts, BindView, Fetch,
    Statement, StatementView,
};
use crate::text::{chars_of, decimal, decimal_text, text_of};

verus! {

/// A file as it is read.
#[derive(Debug, Clone)]
pub struct FileContent {
    pub path: String,
    pub relative_path: String,
    pub language: String,
    pub content: Option<String>,
    pub size_bytes: i64,
    pub line_count: i32,
    pub truncated: bool,
    /// Whether the content was left out because the file can be read again.
    pub content_recoverable_from_disk: bool,
    /// The hash of the content when it was indexed; none while the file is
    /// unfinished.
    pub content_hash: Option<i64>,
}

/// A file that a reference stands for.
#[derive(Debug, Clone)]
pub struct FileReference {
    pub file_id: i64,
    pub path: String,
    pub relative_path: String,
    pub language: String,
    pub line_count: i32,
    pub project_id: i32,
    pub project_name: String,
}

/// The file that others with the same content are duplicates of.
#[derive(Debug, Clone)]
pub struct CanonicalFileMatch {
    pub id: i64,
    pub path: String,
    pub content_hash: Option<i64>,
}

pub const GET_ALL_FILE_METADATA_SQL: &'static str =
    "SELECT path, modified_at, size_bytes FROM indexed_files WHERE content_hash IS NOT NULL";

/// Path, last change and size of all finished files.
pub fn get_all_file_metadata() -> (st: Statement)
    ensures
        st@ == fetches_all(GET_ALL_FILE_METADATA_SQL@, seq![]),
        opens(st@.sql, "SELECT"@),
        says(st@.sql, "FROM indexed_files"@),
{
    proof {
        get_all_file_metadata_text();
    }
    let st = Statement::all(GET_ALL_FILE_METADATA_SQL);
    assert(st@.sql == GET_ALL_FILE_METADATA_SQL@);
    st
}

pub const UPSERT_FILE_SQL: &'static str = "INSERT INTO indexed_files (project_id, path, relative_path, language, size_bytes, content, content_hash, line_count, truncated, content_recoverable_from_disk, modified_at)
         VALUES ($1, $2, $3, $4, $5, $6, $7, $8, $9, $10, $11)
         ON CONFLICT (path) DO UPDATE SET
            project_id = EXCLUDED.project_id,
            relative_path = EXCLUDED.relative_path,
            language = EXCLUDED.language,
            size_bytes = EXCLUDED.size_bytes,
            content = EXCLUDED.content,
            content_hash = EXCLUDED.content_hash,
            line_count = EXCLUDED.line_count,
            truncated = EXCLUDED.truncated,
            content_recoverable_from_disk = EXCLUDED.content_recoverable_from_disk,
            modified_at = EXCLUDED.modified_at,
            indexed_at = NOW()
         RETURNING id";

/// Creates a file, or replaces the data of the one with its path. Without a
/// content hash the file counts as unfinished. The caller supplies value 0,
/// `modified_at`.
pub fn upsert_file(
    project_id: i32,
    path: &str,
    relative_path: &str,
    language: &str,
    size_bytes: i64,
    content: Option<&str>,
    content_hash: Option<i64>,
    line_count: i32,
    truncated: bool,
    content_recoverable_from_disk: bool,
) -> (st: Statement)
    ensures
        st@ == fetches_one(
            UPSERT_FILE_SQL@,
            seq![
                BindView::Int(project_id),
                BindView::Text(path@),
                BindView::Text(relative_path@),
                BindView::Text(language@),
                BindView::BigInt(size_bytes),
                BindView::OptText(opt_str(content)),
                BindView::OptBigInt(content_hash),
                BindView::Int(line_count),
                BindView::Bool(truncated),
                BindView::Bool(content_recoverable_from_disk),
                BindView::Supplied(0),
            ],
        ),
        opens(st@.sql, "INSERT INTO indexed_files"@),
        fills(
            st@,
            "INSERT INTO indexed_files"@,
            "project_id"@,
            "VALUES ("@,
            BindView::Int(project_id),
        ),
        fills(st@, "INSERT INTO indexed_files"@, "path"@, "VALUES ("@, BindView::Text(path@)),
        fills(
            st@,
            "INSERT INTO indexed_files"@,
            "relative_path"@,
            "VALUES ("@,
            BindView::Text(relative_path@),
        ),
        fills(
            st@,
            "INSERT INTO indexed_files"@,
            "language"@,
            "VALUES ("@,
            BindView::Text(language@),
        ),
        fills(
            st@,
            "INSERT INTO indexed_files"@,
            "size_bytes"@,
            "VALUES ("@,
            BindView::BigInt(size_bytes),
        ),
        fills(
            st@,
            "INSERT INTO indexed_files"@,
            "content"@,
            "VALUES ("@,
            BindView::OptText(opt_str(content)),
        ),
        fills(
            st@,
            "INSERT INTO indexed_files"@,
            "content_hash"@,
            "VALUES ("@,
            BindView::OptBigInt(content_hash),
        ),
        fills(
            st@,
            "INSERT INTO indexed_files"@,
            "line_count"@,
            "VALUES ("@,
            BindView::Int(line_count),
        ),
        fills(
            st@,
            "INSERT INTO indexed_files"@,
            "truncated"@,
            "VALUES ("@,
            BindView::Bool(truncated),
        ),
        fills(
            st@,
            "INSERT INTO indexed_files"@,
            "content_recoverable_from_disk"@,
            "VALUES ("@,
            BindView::Bool(content_recoverable_from_disk),
        ),
        fills(
            st@,
            "INSERT INTO indexed_files"@,
            "modified_at"@,
            "VALUES ("@,
            BindView::Supplied(0),
        ),
        says(st@.sql, "ON CONFLICT (path) DO UPDATE SET"@),
{
    proof {
        upsert_file_text();
    }
    let st = Statement::one(UPSERT_FILE_SQL)
        .int4(project_id)
        .text(path)
        .text(relative_path)
        .text(language)
        .int8(size_bytes)
        .opt_text(content)
        .opt_int8(content_hash)
        .int4(line_count)
        .flag(truncated)
        .flag(content_recoverable_from_disk)
        .supplied(0);
    assert(st@.sql == UPSERT_FILE_SQL@);
    st
}

pub const GET_CONTENT_HASH_SQL: &'static str =
    "SELECT content_hash FROM indexed_files WHERE path = $1";

/// The content hash of a file.
pub fn get_content_hash(path: &str) -> (st: Statement)
    ensures
        st@ == fetches_optional(GET_CONTENT_HASH_SQL@, seq![BindView::Text(path@)]),
        opens(st@.sql, "SELECT"@),
        takes(st@, "path = "@, BindView::Text(path@)),
        says(st@.sql, "FROM indexed_files"@),
{
    proof {
        get_content_hash_text();
    }
    let st = Statement::optional(GET_CONTENT_HASH_SQL).text(path);
    assert(st@.sql == GET_CONTENT_HASH_SQL@);
    st
}

/// The content hash that was found: none for an unknown file and for an
/// unfinished one.
pub fn known_content_hash(row: Option<Option<i64>>) -> (r: Option<i64>)
    ensures
        r == (match row {
            Some(hash) => hash,
            None => None,
        }),
{
    match row {
        Some(hash) => hash,
        None => None,
    }
}

pub const FINALIZE_FILE_HASH_SQL: &'static str =
    "UPDATE indexed_files SET content_hash = $1 WHERE id = $2";

/// Sets the content hash of a file, which marks it as finished.
pub fn finalize_file_hash(file_id: i64, content_hash: i64) -> (st: Statement)
    ensures
        st@ == executes(
            FINALIZE_FILE_HASH_SQL@,
            seq![
                BindView::BigInt(content_hash),
                BindView::BigInt(file_id),
            ],
        ),
        opens(st@.sql, "UPDATE indexed_files"@),
        takes(st@, "content_hash = "@, BindView::BigInt(content_hash)),
        takes(st@, "$1 WHERE id = "@, BindView::BigInt(file_id)),
{
    proof {
        finalize_file_hash_text();
    }
    let st = Statement::execute(FINALIZE_FILE_HASH_SQL).int8(content_hash).int8(file_id);
    assert(st@.sql == FINALIZE_FILE_HASH_SQL@);
    st
}

pub const DELETE_FILE_CHUNKS_SQL: &'static str = "DELETE FROM file_chunks WHERE file_id = $1";

/// Deletes the chunks of a file.
pub fn delete_file_chunks(file_id: i64) -> (st: Statement)
    ensures
        st@ == executes(DELETE_FILE_CHUNKS_SQL@, seq![BindView::BigInt(file_id)]),
        opens(st@.sql, "DELETE FROM file_chunks"@),
        takes(st@, "file_id = "@, BindView::BigInt(file_id)),
{
    proof {
        delete_file_chunks_text();
    }
    let st = Statement::execute(DELETE_FILE_CHUNKS_SQL).int8(file_id);
    assert(st@.sql == DELETE_FILE_CHUNKS_SQL@);
    st
}

pub const DELETE_FILE_SQL: &'static str = "DELETE FROM indexed_files WHERE path = $1";

/// Deletes a file with its chunks.
pub fn delete_file(path: &str) -> (st: Statement)
    ensures
        st@ == executes(DELETE_FILE_SQL@, seq![BindView::Text(path@)]),
        opens(st@.sql, "DELETE FROM indexed_files"@),
        takes(st@, "path = "@, BindView::Text(path@)),
{
    proof {
        delete_file_text();
    }
    let st = Statement::execute(DELETE_FILE_SQL).text(path);
    assert(st@.sql == DELETE_FILE_SQL@);
    st
}

pub const DELETE_FILES_BATCH_SQL: &'static str = "DELETE FROM indexed_files WHERE path = ANY($1)";

/// Deletes files with their chunks. No paths: nothing to send, and nothing is
/// deleted.
pub fn delete_files_batch(paths: &[String]) -> (r: Option<Statement>)
    ensures
        r is None <==> paths.len() == 0,
        r matches Some(st) ==> st@ == executes(
            DELETE_FILES_BATCH_SQL@,
            seq![
                BindView::TextArray(texts(paths@)),
            ],
        ),
        r matches Some(st) ==> opens(st@.sql, "DELETE FROM indexed_files"@),
        r matches Some(st) ==> takes(st@, "path = ANY("@, BindView::TextArray(texts(paths@))),
{
    proof {
        delete_files_batch_text();
    }
    if paths.len() == 0 {
        return None;
    }
    let st = Statement::execute(DELETE_FILES_BATCH_SQL).texts(paths);
    assert(st@.sql == DELETE_FILES_BATCH_SQL@);
    Some(st)
}

pub const DELETE_CHUNKS_BY_LANGUAGE_SQL: &'static str = "DELETE FROM file_chunks WHERE file_id IN \
         (SELECT id FROM indexed_files WHERE language = $1)";

pub const DELETE_FILES_BY_LANGUAGE_SQL: &'static str =
    "DELETE FROM indexed_files WHERE language = $1";

/// Deletes all files in a language, their chunks first. The rows that the
/// second statement touches are the files.
pub fn delete_files_by_language(language: &str) -> (r: (Statement, Statement))
    ensures
        r.0@ == executes(DELETE_CHUNKS_BY_LANGUAGE_SQL@, seq![BindView::Text(language@)]),
        r.1@ == executes(DELETE_FILES_BY_LANGUAGE_SQL@, seq![BindView::Text(language@)]),
        opens(r.1@.sql, "DELETE FROM indexed_files"@),
        takes(r.1@, "language = "@, BindView::Text(language@)),
        opens(r.0@.sql, "DELETE FROM file_chunks"@),
        takes(r.0@, "language = "@, BindView::Text(language@)),
{
    proof {
        delete_files_by_language_text();
        delete_chunks_by_language_text();
    }
    let first = Statement::execute(DELETE_CHUNKS_BY_LANGUAGE_SQL).text(language);
    assert(first@.sql == DELETE_CHUNKS_BY_LANGUAGE_SQL@);
    let second = Statement::execute(DELETE_FILES_BY_LANGUAGE_SQL).text(language);
    assert(second@.sql == DELETE_FILES_BY_LANGUAGE_SQL@);
    (
        first,
        second,
    )
}

pub const READ_FILE_SQL: &'static str = "SELECT path, relative_path, language, content, size_bytes, line_count, truncated,
                content_recoverable_from_disk, content_hash
         FROM indexed_files WHERE path = $1";

/// A file with its content.
pub fn read_file(path: &str) -> (st: Statement)
    ensures
        st@ == fetches_optional(READ_FILE_SQL@, seq![BindView::Text(path@)]),
        opens(st@.sql, "SELECT"@),
        takes(st@, "path = "@, BindView::Text(path@)),
        says(st@.sql, "FROM indexed_files"@),
{
    proof {
        read_file_text();
    }
    let st = Statement::optional(READ_FILE_SQL).text(path);
    assert(st@.sql == READ_FILE_SQL@);
    st
}

pub const READ_FILE_BY_RELATIVE_PATH_SQL: &'static str = "SELECT path, relative_path, language, content, size_bytes, line_count, truncated,
                content_recoverable_from_disk, content_hash
         FROM indexed_files WHERE relative_path = $1";

/// A file with its content, by its path within its project.
pub fn read_file_by_relative_path(relative_path: &str) -> (st: Statement)
    ensures
        st@ == fetches_optional(
            READ_FILE_BY_RELATIVE_PATH_SQL@,
            seq![BindView::Text(relative_path@)],
        ),
        opens(st@.sql, "SELECT"@),
        takes(st@, "relative_path = "@, BindView::Text(relative_path@)),
        says(st@.sql, "FROM indexed_files"@),
{
    proof {
        read_file_by_relative_path_text();
    }
    let st = Statement::optional(READ_FILE_BY_RELATIVE_PATH_SQL).text(relative_path);
    assert(st@.sql == READ_FILE_BY_RELATIVE_PATH_SQL@);
    st
}

pub const FILE_INFO_SQL: &'static str = "SELECT f.path, f.relative_path, f.language, f.size_bytes, f.line_count,
                f.truncated, f.indexed_at, f.modified_at, p.name AS project_name
         FROM indexed_files f
         LEFT JOIN projects p ON p.id = f.project_id
         WHERE f.path = $1";

/// The data of a file.
pub fn file_info(path: &str) -> (st: Statement)
    ensures
        st@ == fetches_optional(FILE_INFO_SQL@, seq![BindView::Text(path@)]),
        opens(st@.sql, "SELECT"@),
        takes(st@, "f.path = "@, BindView::Text(path@)),
        says(st@.sql, "FROM indexed_files"@),
{
    proof {
        file_info_text();
    }
    let st = Statement::optional(FILE_INFO_SQL).text(path);
    assert(st@.sql == FILE_INFO_SQL@);
    st
}

pub const PROJECT_TREE_SQL: &'static str = "WITH matching_projects AS (
             SELECT id
             FROM projects
             WHERE name = $1
         ),
         project_match AS (
             SELECT COUNT(*)::int8 AS match_count, MIN(id) AS project_id
             FROM matching_projects
         )
         SELECT pm.match_count, f.relative_path
         FROM project_match pm
         LEFT JOIN indexed_files f
           ON pm.match_count = 1 AND f.project_id = pm.project_id
         ORDER BY f.relative_path NULLS LAST";

/// The files of the project with a name. Each row tells how many projects have
/// the name, and holds a path where it is the only one.
pub fn project_tree(project_name: &str) -> (st: Statement)
    ensures
        st@ == fetches_all(PROJECT_TREE_SQL@, seq![BindView::Text(project_name@)]),
        opens(st@.sql, "WITH"@),
        takes(st@, "name = "@, BindView::Text(project_name@)),
        says(st@.sql, "ORDER BY f.relative_path NULLS LAST"@),
        says(st@.sql, "FROM projects"@),
{
    proof {
        project_tree_text();
    }
    let st = Statement::all(PROJECT_TREE_SQL).text(project_name);
    assert(st@.sql == PROJECT_TREE_SQL@);
    st
}

/// How many slashes a path has.
pub open spec fn slashes(p: Seq<char>) -> nat
    decreases p.len(),
{
    if p.len() == 0 {
        0
    } else {
        slashes(p.drop_last()) + if p.last() == '/' {
            1nat
        } else {
            0
        }
    }
}

/// Whether a path has at most `depth` parts.
pub open spec fn within_depth(p: Seq<char>, depth: i32) -> bool {
    (slashes(p) + 1) as i32 <= depth
}

/// The paths of the first `n` rows that are within a depth.
pub open spec fn tree_paths(
    rows: Seq<(i64, Option<String>)>,
    depth: i32,
    n: int,
) -> Seq<Seq<char>>
    decreases n,
{
    if n <= 0 {
        Seq::empty()
    } else {
        let before = tree_paths(rows, depth, n - 1);
        match opt_text(rows[n - 1].1) {
            Some(p) => if within_depth(p, depth) {
                before.push(p)
            } else {
                before
            },
            None => before,
        }
    }
}

/// The message that refuses a name that several projects have.
pub open spec fn ambiguous_project(project_name: Seq<char>, match_count: i64) -> Seq<char> {
    "ambiguous project name '"@ + project_name + "' matched "@ + decimal_text(match_count as int)
        + " indexed projects"@
}

fn is_within_depth(path: &str, depth: i32) -> (r: bool)
    ensures
        r == within_depth(path@, depth),
{
    let chars: Vec<char> = chars_of(path);
    let mut count: u128 = 0;
    let mut i: usize = 0;
    assert(path@.take(0) =~= Seq::<char>::empty());
    while i < chars.len()
        invariant
            i <= chars.len(),
            chars@ == path@,
            count == slashes(path@.take(i as int)),
            count <= i,
        decreases chars.len() - i,
    {
        assert(path@.take(i + 1).drop_last() =~= path@.take(i as int));
        if chars[i] == '/' {
            count = count + 1;
        }
        i = i + 1;
    }
    assert(path@.take(i as int) =~= path@);
    let parts: i32 = #[verifier::truncate]
    ((count + 1) as i32);
    parts <= depth
}

/// The paths of a project, from the rows that [`project_tree`] gives: those
/// with at most `depth` parts. An unknown project has none; a name that
/// several projects have is refused.
pub fn project_tree_paths(
    project_name: &str,
    rows: &Vec<(i64, Option<String>)>,
    depth: i32,
) -> (r: Result<Vec<String>, ProtocolError>)
    ensures
        r is Err <==> rows.len() > 0 && rows@[0].0 > 1,
        r matches Err(e) ==> e@ == ambiguous_project(project_name@, rows@[0].0),
        r matches Ok(paths) ==> texts(paths@) == (if rows.len() == 0 || rows@[0].0 == 0 {
            Seq::empty()
        } else {
            tree_paths(rows@, depth, rows.len() as int)
        }),
{
    let mut out: Vec<String> = Vec::new();
    assert(texts(out@) =~= Seq::<Seq<char>>::empty());
    if rows.len() == 0 {
        return Ok(out);
    }
    let match_count: i64 = rows[0].0;
    if match_count > 1 {
        let mut m = String::from_str("ambiguous project name '");
        m.append(project_name);
        m.append("' matched ");
        m.append(decimal(match_count).as_str());
        m.append(" indexed projects");
        return Err(ProtocolError { message: m });
    }
    if match_count == 0 {
        return Ok(out);
    }
    let mut i: usize = 0;
    while i < rows.len()
        invariant
            i <= rows.len(),
            texts(out@) == tree_paths(rows@, depth, i as int),
        decreases rows.len() - i,
    {
        if let Some(p) = &rows[i].1 {
            if is_within_depth(p.as_str(), depth) {
                let ghost before = texts(out@);
                out.push(String::from_str(p.as_str()));
                assert(texts(out@) =~= before.push(p@));
            }
        }
        i = i + 1;
    }
    Ok(out)
}

pub const SEARCH_FILE_PATHS_SQL: &'static str =
    "SELECT relative_path FROM indexed_files WHERE relative_path LIKE $1 ORDER BY relative_path LIMIT $2";

/// Paths that start with a text.
pub fn search_file_paths(prefix: &str, limit: i32) -> (st: Statement)
    ensures
        st@ == fetches_all(
            SEARCH_FILE_PATHS_SQL@,
            seq![
                BindView::Text(starting_with(prefix@)),
                BindView::Int(limit),
            ],
        ),
        opens(st@.sql, "SELECT"@),
        takes(st@, "relative_path LIKE "@, BindView::Text(starting_with(prefix@))),
        takes(st@, "LIMIT "@, BindView::Int(limit)),
        says(st@.sql, "FROM indexed_files"@),
{
    proof {
        search_file_paths_text();
    }
    let st = Statement::all(SEARCH_FILE_PATHS_SQL)
        .text(prefix_pattern(prefix).as_str())
        .int4(limit);
    assert(st@.sql == SEARCH_FILE_PATHS_SQL@);
    st
}

pub const GET_FILE_ID_BY_PATH_SQL: &'static str = "SELECT id FROM indexed_files WHERE path = $1";

/// The id of a file.
pub fn get_file_id_by_path(path: &str) -> (st: Statement)
    ensures
        st@ == fetches_optional(GET_FILE_ID_BY_PATH_SQL@, seq![BindView::Text(path@)]),
        opens(st@.sql, "SELECT"@),
        takes(st@, "path = "@, BindView::Text(path@)),
        says(st@.sql, "FROM indexed_files"@),
{
    proof {
        get_file_id_by_path_text();
    }
    let st = Statement::optional(GET_FILE_ID_BY_PATH_SQL).text(path);
    assert(st@.sql == GET_FILE_ID_BY_PATH_SQL@);
    st
}

pub const RESOLVE_IN_PROJECT_SQL: &'static str = "WITH matching_projects AS (
                 SELECT id, name
                 FROM projects
                 WHERE name = $1
             ),
             unique_project AS (
                 SELECT id, name
                 FROM matching_projects
                 WHERE (SELECT COUNT(*) FROM matching_projects) = 1
             )
             SELECT f.id as file_id, f.path, f.relative_path, f.language, f.line_count,
                    p.id as project_id, p.name as project_name
             FROM indexed_files f
             JOIN unique_project p ON p.id = f.project_id
             WHERE f.relative_path = $2";

pub const RESOLVE_BY_PATH_SQL: &'static str = "SELECT f.id as file_id, f.path, f.relative_path, f.language, f.line_count,
                    p.id as project_id, p.name as project_name
             FROM indexed_files f
             JOIN projects p ON p.id = f.project_id
             WHERE f.path = $1";

/// The place of the first colon in a text.
pub open spec fn first_colon(s: Seq<char>) -> Option<int>
    decreases s.len(),
{
    if s.len() == 0 {
        None
    } else {
        match first_colon(s.drop_last()) {
            Some(i) => Some(i),
            None => if s.last() == ':' {
                Some(s.len() - 1)
            } else {
                None
            },
        }
    }
}

proof fn lemma_first_colon(s: Seq<char>, n: int)
    requires
        0 <= n <= s.len(),
        first_colon(s.take(n)) is Some,
    ensures
        first_colon(s) == first_colon(s.take(n)),
    decreases s.len() - n,
{
    if n < s.len() {
        assert(s.take(n + 1).drop_last() =~= s.take(n));
        lemma_first_colon(s, n + 1);
    } else {
        assert(s.take(n) =~= s);
    }
}

/// The query for the file that a reference stands for: `project:path`, split
/// at the first colon, or a full path without a colon.
pub open spec fn resolves_reference(file_ref: Seq<char>) -> StatementView {
    match first_colon(file_ref) {
        Some(i) => fetches_optional(
            RESOLVE_IN_PROJECT_SQL@,
            seq![BindView::Text(file_ref.take(i)), BindView::Text(file_ref.skip(i + 1))],
        ),
        None => fetches_optional(RESOLVE_BY_PATH_SQL@, seq![BindView::Text(file_ref)]),
    }
}

/// Resolves a file reference: `project:path`, where only one project has the
/// name, or a full path.
pub fn resolve_file_reference(file_ref: &str) -> (st: Statement)
    ensures
        st@ == resolves_reference(file_ref@),
        first_colon(file_ref@) is Some ==> opens(st@.sql, "WITH"@),
        first_colon(file_ref@) is Some ==> takes(
            st@,
            "name = "@,
            BindView::Text(file_ref@.take(first_colon(file_ref@)->0)),
        ),
        first_colon(file_ref@) is Some ==> takes(
            st@,
            "f.relative_path = "@,
            BindView::Text(file_ref@.skip(first_colon(file_ref@)->0 + 1)),
        ),
        first_colon(file_ref@) is None ==> opens(st@.sql, "SELECT"@),
        first_colon(file_ref@) is None ==> takes(st@, "f.path = "@, BindView::Text(file_ref@)),
{
    proof {
        law_reference_names_project_and_path(file_ref@);
    }
    let chars: Vec<char> = chars_of(file_ref);
    let mut i: usize = 0;
    assert(file_ref@.take(0) =~= Seq::<char>::empty());
    while i < chars.len() && chars[i] != ':'
        invariant
            i <= chars.len(),
            chars@ == file_ref@,
            first_colon(file_ref@.take(i as int)) is None,
        decreases chars.len() - i,
    {
        assert(file_ref@.take(i + 1).drop_last() =~= file_ref@.take(i as int));
        i = i + 1;
    }
    if i < chars.len() {
        proof {
            assert(file_ref@.take(i + 1).drop_last() =~= file_ref@.take(i as int));
            lemma_first_colon(file_ref@, i + 1);
        }
        let project = text_of(&chars, 0, i);
        let path = text_of(&chars, i + 1, chars.len());
        assert(project@ =~= file_ref@.take(i as int));
        assert(path@ =~= file_ref@.skip(i + 1));
        let st = Statement::optional(RESOLVE_IN_PROJECT_SQL)
            .text(project.as_str())
            .text(path.as_str());
        assert(st@ =~= resolves_reference(file_ref@));
        st
    } else {
        assert(file_ref@.take(i as int) =~= file_ref@);
        Statement::optional(RESOLVE_BY_PATH_SQL).text(file_ref)
    }
}

/// A reference that is written as a project's name, a colon and a path is
/// resolved by exactly these two, as long as the name holds no colon.
pub proof fn law_reference_splits_back(project: Seq<char>, path: Seq<char>)
    requires
        !project.contains(':'),
    ensures
        resolves_reference(project + seq![':'] + path) == fetches_optional(
            RESOLVE_IN_PROJECT_SQL@,
            seq![BindView::Text(project), BindView::Text(path)],
        ),
{
    let s = project + seq![':'] + path;
    let n = project.len() as int;
    lemma_no_colon(project);
    assert(s.take(n) =~= project);
    assert(s.take(n + 1).drop_last() =~= project);
    assert(s.take(n + 1).last() == ':');
    lemma_first_colon(s, n + 1);
    assert(s.skip(n + 1) =~= path);
}

proof fn lemma_no_colon(s: Seq<char>)
    requires
        !s.contains(':'),
    ensures
        first_colon(s) is None,
    decreases s.len(),
{
    if s.len() > 0 {
        assert(s[s.len() - 1] != ':');
        assert(!s.drop_last().contains(':')) by {
            if s.drop_last().contains(':') {
                let i = choose|i: int| 0 <= i < s.len() - 1 && s.drop_last()[i] == ':';
                assert(s[i] == ':');
            }
        }
        lemma_no_colon(s.drop_last());
    }
}

pub const FIND_CANONICAL_BY_CONTENT_HASH_SQL: &'static str = "SELECT id, path, content_hash
         FROM indexed_files
         WHERE project_id = $1
           AND content_hash = $2
           AND duplicate_of_file_id IS NULL
         ORDER BY id ASC
         LIMIT 1";

/// The file of a project with some content that is no duplicate itself; of
/// several the one with the lowest id.
pub fn find_canonical_by_content_hash(project_id: i32, content_hash: i64) -> (st: Statement)
    ensures
        st@ == fetches_optional(
            FIND_CANONICAL_BY_CONTENT_HASH_SQL@,
            seq![
                BindView::Int(project_id),
                BindView::BigInt(content_hash),
            ],
        ),
        opens(st@.sql, "SELECT"@),
        takes(st@, "project_id = "@, BindView::Int(project_id)),
        takes(st@, "content_hash = "@, BindView::BigInt(content_hash)),
        says(st@.sql, "AND duplicate_of_file_id IS NULL"@),
        says(st@.sql, "ORDER BY id ASC"@),
        says(st@.sql, "FROM indexed_files"@),
{
    proof {
        find_canonical_by_content_hash_text();
    }
    let st = Statement::optional(FIND_CANONICAL_BY_CONTENT_HASH_SQL)
        .int4(project_id)
        .int8(content_hash);
    assert(st@.sql == FIND_CANONICAL_BY_CONTENT_HASH_SQL@);
    st
}

pub const UPDATE_FILE_PATH_IN_PLACE_SQL: &'static str = "UPDATE indexed_files
         SET path = $2, relative_path = $3, modified_at = $4, indexed_at = NOW()
         WHERE id = $1";

/// Moves a file to another path; its chunks stay. Earlier failures to index
/// the new path are forgotten; both statements run in one transaction. The
/// caller supplies for the first value 0, the time of the last change.
pub fn update_file_path_in_place(
    file_id: i64,
    new_path: &str,
    new_relative_path: &str,
) -> (r: (Statement, Statement))
    ensures
        r.0@ == executes(
            UPDATE_FILE_PATH_IN_PLACE_SQL@,
            seq![
                BindView::BigInt(file_id),
                BindView::Text(new_path@),
                BindView::Text(new_relative_path@),
                BindView::Supplied(0),
            ],
        ),
        r.1@ == clears_failure_of(new_path@),
        opens(r.0@.sql, "UPDATE indexed_files"@),
        takes(r.0@, "WHERE id = "@, BindView::BigInt(file_id)),
        takes(r.0@, "path = "@, BindView::Text(new_path@)),
        takes(r.0@, "relative_path = "@, BindView::Text(new_relative_path@)),
        takes(r.0@, "modified_at = "@, BindView::Supplied(0)),
        opens(r.1@.sql, "DELETE FROM index_failures"@),
        takes(r.1@, "path = "@, BindView::Text(new_path@)),
{
    proof {
        law_clears_failure_of_stands_for_its_values(new_path@);
        update_file_path_in_place_text();
    }
    let st = Statement::execute(UPDATE_FILE_PATH_IN_PLACE_SQL)
            .int8(file_id)
            .text(new_path)
            .text(new_relative_path)
            .supplied(0);
    assert(st@.sql == UPDATE_FILE_PATH_IN_PLACE_SQL@);
    (
        st,
        clear_index_failure(new_path),
    )
}

pub const INSERT_DUPLICATE_FILE_SQL: &'static str = "INSERT INTO indexed_files (
            project_id, path, relative_path, language, size_bytes,
            content, content_hash, line_count, truncated, modified_at,
            duplicate_of_file_id
         )
         VALUES ($1, $2, $3, $4, $5, NULL, $6, 0, false, $7, $8)
         ON CONFLICT (path) DO UPDATE SET
            project_id = EXCLUDED.project_id,
            relative_path = EXCLUDED.relative_path,
            language = EXCLUDED.language,
            size_bytes = EXCLUDED.size_bytes,
            content_hash = EXCLUDED.content_hash,
            modified_at = EXCLUDED.modified_at,
            duplicate_of_file_id = EXCLUDED.duplicate_of_file_id,
            indexed_at = NOW()
         RETURNING id";

/// Records a file as a duplicate of another: it has no chunks of its own, and
/// the first statement returns its id. Earlier failures to index it are
/// forgotten; both statements run in one transaction. The caller supplies for
/// the first value 0, the time of the last change.
pub fn insert_duplicate_file(
    project_id: i32,
    path: &str,
    relative_path: &str,
    language: &str,
    size_bytes: i64,
    content_hash: i64,
    canonical_file_id: i64,
) -> (r: (Statement, Statement))
    ensures
        r.0@ == fetches_one(
            INSERT_DUPLICATE_FILE_SQL@,
            seq![
                BindView::Int(project_id),
                BindView::Text(path@),
                BindView::Text(relative_path@),
                BindView::Text(language@),
                BindView::BigInt(size_bytes),
                BindView::BigInt(content_hash),
                BindView::Supplied(0),
                BindView::BigInt(canonical_file_id),
            ],
        ),
        r.1@ == clears_failure_of(path@),
        opens(r.0@.sql, "INSERT INTO indexed_files"@),
        fills(
            r.0@,
            "INSERT INTO indexed_files"@,
            "project_id"@,
            "VALUES ("@,
            BindView::Int(project_id),
        ),
        fills(r.0@, "INSERT INTO indexed_files"@, "path"@, "VALUES ("@, BindView::Text(path@)),
        fills(
            r.0@,
            "INSERT INTO indexed_files"@,
            "relative_path"@,
            "VALUES ("@,
            BindView::Text(relative_path@),
        ),
        fills(
            r.0@,
            "INSERT INTO indexed_files"@,
            "language"@,
            "VALUES ("@,
            BindView::Text(language@),
        ),
        fills(
            r.0@,
            "INSERT INTO indexed_files"@,
            "size_bytes"@,
            "VALUES ("@,
            BindView::BigInt(size_bytes),
        ),
        fills(
            r.0@,
            "INSERT INTO indexed_files"@,
            "content_hash"@,
            "VALUES ("@,
            BindView::BigInt(content_hash),
        ),
        fills(
            r.0@,
            "INSERT INTO indexed_files"@,
            "modified_at"@,
            "VALUES ("@,
            BindView::Supplied(0),
        ),
        fills(
            r.0@,
            "INSERT INTO indexed_files"@,
            "duplicate_of_file_id"@,
            "VALUES ("@,
            BindView::BigInt(canonical_file_id),
        ),
        says(r.0@.sql, "ON CONFLICT (path) DO UPDATE SET"@),
        opens(r.1@.sql, "DELETE FROM index_failures"@),
        takes(r.1@, "path = "@, BindView::Text(path@)),
{
    proof {
        law_clears_failure_of_stands_for_its_values(path@);
        insert_duplicate_file_text();
    }
    let st = Statement::one(INSERT_DUPLICATE_FILE_SQL)
            .int4(project_id)
            .text(path)
            .text(relative_path)
            .text(language)
            .int8(size_bytes)
            .int8(content_hash)
            .supplied(0)
            .int8(canonical_file_id);
    assert(st@.sql == INSERT_DUPLICATE_FILE_SQL@);
    (
        st,
        clear_index_failure(path),
    )
}

pub const GET_FILE_LINE_COUNT_SQL: &'static str =
    "SELECT line_count FROM indexed_files WHERE id = $1";

/// How many lines a file has.
pub fn get_file_line_count(file_id: i64) -> (st: Statement)
    ensures
        st@ == fetches_one(GET_FILE_LINE_COUNT_SQL@, seq![BindView::BigInt(file_id)]),
        opens(st@.sql, "SELECT"@),
        takes(st@, "indexed_files WHERE id = "@, BindView::BigInt(file_id)),
        says(st@.sql, "FROM indexed_files"@),
{
    proof {
        get_file_line_count_text();
    }
    let st = Statement::one(GET_FILE_LINE_COUNT_SQL).int8(file_id);
    assert(st@.sql == GET_FILE_LINE_COUNT_SQL@);
    st
}

pub const FIND_FILES_BY_PATH_PATTERN_SQL: &'static str = "SELECT f.id as file_id, f.path, f.relative_path, f.language, f.line_count,
                p.id as project_id, p.name as project_name
         FROM indexed_files f
         JOIN projects p ON p.id = f.project_id
         WHERE p.name = $1 AND f.relative_path LIKE $2
         ORDER BY f.relative_path";

/// The files of a project whose path holds a text.
pub fn find_files_by_path_pattern(project: &str, pattern: &str) -> (st: Statement)
    ensures
        st@ == fetches_all(
            FIND_FILES_BY_PATH_PATTERN_SQL@,
            seq![
                BindView::Text(project@),
                BindView::Text(anywhere(pattern@)),
            ],
        ),
        opens(st@.sql, "SELECT"@),
        takes(st@, "p.name = "@, BindView::Text(project@)),
        takes(st@, "f.relative_path LIKE "@, BindView::Text(anywhere(pattern@))),
        says(st@.sql, "ORDER BY f.relative_path"@),
        says(st@.sql, "FROM indexed_files"@),
{
    proof {
        find_files_by_path_pattern_text();
    }
    let st = Statement::all(FIND_FILES_BY_PATH_PATTERN_SQL)
        .text(project)
        .text(anywhere_pattern(pattern).as_str());
    assert(st@.sql == FIND_FILES_BY_PATH_PATTERN_SQL@);
    st
}

pub const LIST_FILE_PATHS_SQL: &'static str = "SELECT path FROM indexed_files";

pub const DELETE_STALE_FILE_SQL: &'static str = "DELETE FROM indexed_files WHERE path = $1";

/// The paths of all indexed files, to be looked for on disk.
pub fn list_file_paths() -> (st: Statement)
    ensures
        st@ == fetches_all(LIST_FILE_PATHS_SQL@, seq![]),
        opens(st@.sql, "SELECT"@),
        says(st@.sql, "FROM indexed_files"@),
{
    proof {
        list_file_paths_text();
    }
    let st = Statement::all(LIST_FILE_PATHS_SQL);
    assert(st@.sql == LIST_FILE_PATHS_SQL@);
    st
}

/// The statements that delete those of the first `n` files that are gone.
pub open spec fn stale_deletions(
    paths: Seq<Seq<char>>,
    exists_on_disk: Seq<bool>,
    n: int,
) -> Seq<StatementView>
    decreases n,
{
    if n <= 0 {
        Seq::empty()
    } else {
        let before = stale_deletions(paths, exists_on_disk, n - 1);
        if exists_on_disk[n - 1] {
            before
        } else {
            before.push(executes(DELETE_STALE_FILE_SQL@, seq![BindView::Text(paths[n - 1])]))
        }
    }
}

/// Deletes the files that are gone: one statement for each path that does not
/// exist on disk. The number of statements is the number of files removed.
pub fn cleanup_stale_files(paths: &Vec<String>, exists_on_disk: &Vec<bool>) -> (r: Vec<Statement>)
    requires
        paths.len() == exists_on_disk.len(),
    ensures
        statement_views(r@) == stale_deletions(
            texts(paths@),
            exists_on_disk@,
            paths.len() as int,
        ),
        forall|i: int| 0 <= i < r.len() ==> (#[trigger] r@[i]).fetch == Fetch::Execute,
{
    let mut out: Vec<Statement> = Vec::new();
    let mut i: usize = 0;
    assert(statement_views(out@) =~= Seq::<StatementView>::empty());
    while i < paths.len()
        invariant
            i <= paths.len(),
            paths.len() == exists_on_disk.len(),
            statement_views(out@) == stale_deletions(texts(paths@), exists_on_disk@, i as int),
            forall|j: int| 0 <= j < out.len() ==> (#[trigger] out@[j]).fetch == Fetch::Execute,
        decreases paths.len() - i,
    {
        if !exists_on_disk[i] {
            let st = Statement::execute(DELETE_STALE_FILE_SQL).text(paths[i].as_str());
            assert(st@.fetch == Fetch::Execute);
            let ghost before = statement_views(out@);
            out.push(st);
            assert(statement_views(out@) =~= before.push(st@));
            assert(texts(paths@)[i as int] == paths@[i as int]@);
        }
        i = i + 1;
    }
    out
}

/// The first colon is a colon, and none stands before it; where there is none,
/// the text has none.
pub proof fn law_first_colon_is_first(s: Seq<char>)
    ensures
        first_colon(s) matches Some(i) ==> 0 <= i < s.len() && s[i] == ':' && forall|j: int|
            0 <= j < i ==> #[trigger] s[j] != ':',
        first_colon(s) is None ==> forall|j: int| 0 <= j < s.len() ==> #[trigger] s[j] != ':',
    decreases s.len(),
{
    if s.len() > 0 {
        let front = s.drop_last();
        law_first_colon_is_first(front);
        match first_colon(front) {
            Some(i) => {
                assert(s[i] == front[i]);
                assert forall|j: int| 0 <= j < i implies #[trigger] s[j] != ':' by {
                    assert(s[j] == front[j]);
                }
            },
            None => {
                assert forall|j: int| 0 <= j < front.len() implies #[trigger] s[j] != ':' by {
                    assert(s[j] == front[j]);
                }
            },
        }
    }
}

/// The depth of a path is the number of its parts: a slash adds one, any other
/// character none.
pub proof fn law_depth_counts_slashes(p: Seq<char>, c: char)
    ensures
        slashes(p.push(c)) == slashes(p) + if c == '/' {
            1int
        } else {
            0
        },
        slashes(Seq::empty()) == 0,
{
    assert(p.push(c).drop_last() =~= p);
    assert(p.push(c).last() == c);
}

/// A tree lists exactly the paths within its depth, in the order of the rows.
pub proof fn law_tree_lists_paths_within_depth(
    rows: Seq<(i64, Option<String>)>,
    depth: i32,
    n: int,
    i: int,
)
    requires
        0 <= i < n <= rows.len(),
    ensures
        opt_text(rows[i].1) matches Some(p) ==> within_depth(p, depth) ==> tree_paths(
            rows,
            depth,
            n,
        ).contains(p),
        forall|k: int|
            0 <= k < tree_paths(rows, depth, n).len() ==> within_depth(
                #[trigger] tree_paths(rows, depth, n)[k],
                depth,
            ),
        tree_paths(rows, depth, n).len() <= n,
    decreases n,
{
    let all = tree_paths(rows, depth, n);
    let before = tree_paths(rows, depth, n - 1);
    if n > 1 {
        law_tree_lists_paths_within_depth(rows, depth, n - 1, if i < n - 1 { i } else { 0 });
    } else {
        assert(before.len() == 0);
    }
    assert forall|k: int| 0 <= k < all.len() implies within_depth(#[trigger] all[k], depth) by {
        if k < before.len() {
            assert(all[k] == before[k]);
        }
    }
    match opt_text(rows[i].1) {
        Some(p) => {
            if within_depth(p, depth) {
                if i == n - 1 {
                    assert(all[before.len() as int] == p);
                } else {
                    let k = choose|k: int| 0 <= k < before.len() && before[k] == p;
                    assert(all[k] == p);
                }
            }
        },
        None => {},
    }
}

/// Only files that are gone from disk are deleted, and each of them is: a
/// statement for a file takes its path.
pub proof fn law_only_stale_files_are_deleted(
    paths: Seq<Seq<char>>,
    exists_on_disk: Seq<bool>,
    n: int,
)
    requires
        0 <= n <= paths.len(),
        paths.len() == exists_on_disk.len(),
    ensures
        forall|k: int|
            0 <= k < stale_deletions(paths, exists_on_disk, n).len() ==> exists|i: int|
                0 <= i < n && !(#[trigger] exists_on_disk[i]) && takes(
                    #[trigger] stale_deletions(paths, exists_on_disk, n)[k],
                    "path = "@,
                    BindView::Text(paths[i]),
                ),
        (forall|i: int| 0 <= i < n ==> #[trigger] exists_on_disk[i]) ==> stale_deletions(
            paths,
            exists_on_disk,
            n,
        ).len() == 0,
        n > 0 && !exists_on_disk[n - 1] ==> stale_deletions(paths, exists_on_disk, n).len()
            == stale_deletions(paths, exists_on_disk, n - 1).len() + 1,
    decreases n,
{
    delete_stale_file_text();
    let all = stale_deletions(paths, exists_on_disk, n);
    if n > 0 {
        law_only_stale_files_are_deleted(paths, exists_on_disk, n - 1);
        let before = stale_deletions(paths, exists_on_disk, n - 1);
        assert forall|k: int| 0 <= k < all.len() implies exists|i: int|
            0 <= i < n && !(#[trigger] exists_on_disk[i]) && takes(
                #[trigger] all[k],
                "path = "@,
                BindView::Text(paths[i]),
            ) by {
            if k < before.len() {
                assert(all[k] == before[k]);
                let i = choose|i: int|
                    0 <= i < n - 1 && !(#[trigger] exists_on_disk[i]) && takes(
                        before[k],
                        "path = "@,
                        BindView::Text(paths[i]),
                    );
                assert(!exists_on_disk[i]);
            } else {
                assert(!exists_on_disk[n - 1]);
                assert(all[k].sql == DELETE_STALE_FILE_SQL@);
                assert(takes(all[k], "path = "@, BindView::Text(paths[n - 1])));
            }
        }
    }
}

} // verus!
