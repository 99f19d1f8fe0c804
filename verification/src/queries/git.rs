//! Git history: commits, their texts and files, and blame.
use vstd::prelude::*;

use crate::embedding::{
    dimension_refusal, require_dimension, tune, tuned, TunedQuery, EMBEDDING_DIM,
};
use crate::meaning::{fills, opens, says, takes};
use crate::metadata::{key_for_project, project_key, read_metadata, reads, write_metadata, writes};
use crate::protocol::ProtocolError;
use crate::queries::texts::git::{
    get_commits_missing_files_text, has_commit_files_for_project_id_text,
    has_commit_files_for_project_text, insert_commit_file_text, insert_git_commit_chunk_text,
    update_blame_for_file_text, upsert_git_commit_text,
};
use crate::queries::texts::metadata::{
    law_reads_stands_for_its_values, law_writes_stands_for_its_values,
};
use crate::statement::{
    executes, fetches_all, fetches_one, opt_str, BindView, Statement, StatementView,
};
use crate::text::decimal_text;

verus! {

pub const UPSERT_GIT_COMMIT_SQL: &'static str = "INSERT INTO git_commits (project_id, commit_hash, author, author_date, subject, body)
         VALUES ($1, $2, $3, $4, $5, $6)
         ON CONFLICT (project_id, commit_hash) DO UPDATE SET
            author = EXCLUDED.author,
            author_date = EXCLUDED.author_date,
            subject = EXCLUDED.subject,
            body = EXCLUDED.body
         RETURNING id";

/// Creates a commit, or replaces its data where its project has it. The caller
/// supplies value 0, `author_date`.
pub fn upsert_git_commit(
    project_id: i32,
    commit_hash: &str,
    author: &str,
    subject: &str,
    body: Option<&str>,
) -> (st: Statement)
    ensures
        st@ == fetches_one(
            UPSERT_GIT_COMMIT_SQL@,
            seq![
                BindView::Int(project_id),
                BindView::Text(commit_hash@),
                BindView::Text(author@),
                BindView::Supplied(0),
                BindView::Text(subject@),
                BindView::OptText(opt_str(body)),
            ],
        ),
        opens(st@.sql, "INSERT INTO git_commits"@),
        fills(
            st@,
            "INSERT INTO git_commits"@,
            "project_id"@,
            "VALUES ("@,
            BindView::Int(project_id),
        ),
        fills(
            st@,
            "INSERT INTO git_commits"@,
            "commit_hash"@,
            "VALUES ("@,
            BindView::Text(commit_hash@),
        ),
        fills(st@, "INSERT INTO git_commits"@, "author"@, "VALUES ("@, BindView::Text(author@)),
        fills(st@, "INSERT INTO git_commits"@, "author_date"@, "VALUES ("@, BindView::Supplied(0)),
        fills(st@, "INSERT INTO git_commits"@, "subject"@, "VALUES ("@, BindView::Text(subject@)),
        fills(
            st@,
            "INSERT INTO git_commits"@,
            "body"@,
            "VALUES ("@,
            BindView::OptText(opt_str(body)),
        ),
        says(st@.sql, "ON CONFLICT (project_id, commit_hash) DO UPDATE SET"@),
{
    proof {
        upsert_git_commit_text();
    }
    let st = Statement::one(UPSERT_GIT_COMMIT_SQL)
        .int4(project_id)
        .text(commit_hash)
        .text(author)
        .supplied(0)
        .text(subject)
        .opt_text(body);
    assert(st@.sql == UPSERT_GIT_COMMIT_SQL@);
    st
}

pub const INSERT_GIT_COMMIT_CHUNK_SQL: &'static str = "INSERT INTO git_commit_chunks
            (commit_id, chunk_index, content, embedding_v2, embedding_signature)
         VALUES ($1, $2, $3, $4, 'bge-m3-v1')
         ON CONFLICT (commit_id, chunk_index) DO UPDATE SET
            content = EXCLUDED.content,
            embedding_v2 = EXCLUDED.embedding_v2,
            embedding_signature = EXCLUDED.embedding_signature";

pub const INSERT_GIT_COMMIT_CHUNK_REFUSAL: &'static str =
    "insert_git_commit_chunk: expected a 1024-dimension BGE-M3 embedding, got ";

/// Stores a chunk of a commit, replacing the one with its commit and index.
/// The caller supplies value 0, the embedding, of dimension `dim`.
pub fn insert_git_commit_chunk(
    commit_id: i64,
    chunk_index: i32,
    content: &str,
    dim: usize,
) -> (r: Result<Statement, ProtocolError>)
    ensures
        r is Ok <==> dim == EMBEDDING_DIM,
        r matches Err(e) ==> e@ == dimension_refusal(INSERT_GIT_COMMIT_CHUNK_REFUSAL@, dim),
        r matches Ok(st) ==> st@ == executes(
            INSERT_GIT_COMMIT_CHUNK_SQL@,
            seq![
                BindView::BigInt(commit_id),
                BindView::Int(chunk_index),
                BindView::Text(content@),
                BindView::Supplied(0),
            ],
        ),
        r matches Ok(st) ==> opens(st@.sql, "INSERT INTO git_commit_chunks"@),
        r matches Ok(st) ==> fills(
            st@,
            "INSERT INTO git_commit_chunks"@,
            "commit_id"@,
            "VALUES ("@,
            BindView::BigInt(commit_id),
        ),
        r matches Ok(st) ==> fills(
            st@,
            "INSERT INTO git_commit_chunks"@,
            "chunk_index"@,
            "VALUES ("@,
            BindView::Int(chunk_index),
        ),
        r matches Ok(st) ==> fills(
            st@,
            "INSERT INTO git_commit_chunks"@,
            "content"@,
            "VALUES ("@,
            BindView::Text(content@),
        ),
        r matches Ok(st) ==> fills(
            st@,
            "INSERT INTO git_commit_chunks"@,
            "embedding_v2"@,
            "VALUES ("@,
            BindView::Supplied(0),
        ),
        r matches Ok(st) ==> says(st@.sql, "ON CONFLICT (commit_id, chunk_index) DO UPDATE SET"@),
{
    proof {
        insert_git_commit_chunk_text();
    }
    match require_dimension(dim, INSERT_GIT_COMMIT_CHUNK_REFUSAL) {
        Ok(_) => {},
        Err(e) => return Err(e),
    }
    let st = Statement::execute(INSERT_GIT_COMMIT_CHUNK_SQL)
            .int8(commit_id)
            .int4(chunk_index)
            .text(content)
            .supplied(0);
    assert(st@.sql == INSERT_GIT_COMMIT_CHUNK_SQL@);
    Ok(st)
}

pub const GIT_LAST_COMMIT_KEY: &'static str = "git_last_commit:";

/// The last commit of a project that was indexed.
pub fn get_git_last_commit(project_id: i32) -> (st: Statement)
    ensures
        st@ == reads(project_key(GIT_LAST_COMMIT_KEY@, project_id)),
        opens(st@.sql, "SELECT"@),
        takes(
            st@,
            "key = "@,
            BindView::Text("git_last_commit:"@ + decimal_text(project_id as int)),
        ),
{
    proof {
        law_reads_stands_for_its_values(project_key(GIT_LAST_COMMIT_KEY@, project_id));
    }
    read_metadata(key_for_project(GIT_LAST_COMMIT_KEY, project_id).as_str())
}

/// Records the last commit of a project that was indexed.
pub fn set_git_last_commit(project_id: i32, sha: &str) -> (st: Statement)
    ensures
        st@ == writes(project_key(GIT_LAST_COMMIT_KEY@, project_id), sha@),
        opens(st@.sql, "INSERT INTO pgmcp_metadata"@),
        fills(
            st@,
            "INSERT INTO pgmcp_metadata"@,
            "key"@,
            "VALUES ("@,
            BindView::Text("git_last_commit:"@ + decimal_text(project_id as int)),
        ),
        fills(st@, "INSERT INTO pgmcp_metadata"@, "value"@, "VALUES ("@, BindView::Text(sha@)),
{
    proof {
        law_writes_stands_for_its_values(project_key(GIT_LAST_COMMIT_KEY@, project_id), sha@);
    }
    write_metadata(key_for_project(GIT_LAST_COMMIT_KEY, project_id).as_str(), sha)
}

pub const UPDATE_BLAME_FOR_FILE_SQL: &'static str = "UPDATE file_chunks SET blame_commit = $1, blame_author = $2, blame_date = $3
         WHERE file_id = $4 AND start_line <= $6 AND end_line >= $5";

/// Records who last changed the chunks of a file that overlap some lines. The
/// caller supplies value 0, `blame_date`.
pub fn update_blame_for_file(
    file_id: i64,
    blame_commit: &str,
    blame_author: &str,
    start_line: i32,
    end_line: i32,
) -> (st: Statement)
    ensures
        st@ == executes(
            UPDATE_BLAME_FOR_FILE_SQL@,
            seq![
                BindView::Text(blame_commit@),
                BindView::Text(blame_author@),
                BindView::Supplied(0),
                BindView::BigInt(file_id),
                BindView::Int(start_line),
                BindView::Int(end_line),
            ],
        ),
        opens(st@.sql, "UPDATE file_chunks"@),
        takes(st@, "blame_commit = "@, BindView::Text(blame_commit@)),
        takes(st@, "blame_author = "@, BindView::Text(blame_author@)),
        takes(st@, "blame_date = "@, BindView::Supplied(0)),
        takes(st@, "file_id = "@, BindView::BigInt(file_id)),
        takes(st@, "end_line >= "@, BindView::Int(start_line)),
        takes(st@, "start_line <= "@, BindView::Int(end_line)),
{
    proof {
        update_blame_for_file_text();
    }
    let st = Statement::execute(UPDATE_BLAME_FOR_FILE_SQL)
        .text(blame_commit)
        .text(blame_author)
        .supplied(0)
        .int8(file_id)
        .int4(start_line)
        .int4(end_line);
    assert(st@.sql == UPDATE_BLAME_FOR_FILE_SQL@);
    st
}

pub const COMMITS_OF_PROJECT_SQL: &'static str = "SELECT g.commit_hash, g.author, g.author_date, g.subject,
                    cc.content as chunk_content,
                    1 - (cc.embedding_v2 <=> $1) as score,
                    p.name as project_name
             FROM git_commit_chunks cc
             JOIN git_commits g ON g.id = cc.commit_id
             JOIN projects p ON p.id = g.project_id
             WHERE p.name = $3 AND cc.embedding_v2 IS NOT NULL
             ORDER BY cc.embedding_v2 <=> $1
             LIMIT $2";

pub const ALL_COMMITS_SQL: &'static str = "SELECT g.commit_hash, g.author, g.author_date, g.subject,
                    cc.content as chunk_content,
                    1 - (cc.embedding_v2 <=> $1) as score,
                    p.name as project_name
             FROM git_commit_chunks cc
             JOIN git_commits g ON g.id = cc.commit_id
             JOIN projects p ON p.id = g.project_id
             WHERE cc.embedding_v2 IS NOT NULL
             ORDER BY cc.embedding_v2 <=> $1
             LIMIT $2";

/// The query for the commits closest to the embedding that the caller supplies
/// as value 0, optionally of one project.
pub open spec fn commits_query(limit: i32, project: Option<Seq<char>>) -> StatementView {
    match project {
        Some(p) => fetches_all(
            COMMITS_OF_PROJECT_SQL@,
            seq![BindView::Supplied(0), BindView::Int(limit), BindView::Text(p)],
        ),
        None => fetches_all(ALL_COMMITS_SQL@, seq![BindView::Supplied(0), BindView::Int(limit)]),
    }
}

pub const SEARCH_COMMITS_REFUSAL: &'static str =
    "semantic_search_commits: expected a 1024-dimension BGE-M3 query embedding, got ";

/// Commits by similarity to a query, optionally of one project. The caller
/// supplies value 0, the embedding, of dimension `dim`.
pub fn semantic_search_commits(
    dim: usize,
    limit: i32,
    project: Option<&str>,
    ef_search: i32,
) -> (r: Result<TunedQuery, ProtocolError>)
    ensures
        r is Ok <==> dim == EMBEDDING_DIM,
        r matches Err(e) ==> e@ == dimension_refusal(SEARCH_COMMITS_REFUSAL@, dim),
        r matches Ok(q) ==> q@ == tuned(ef_search, commits_query(limit, opt_str(project))),
{
    match require_dimension(dim, SEARCH_COMMITS_REFUSAL) {
        Ok(_) => {},
        Err(e) => return Err(e),
    }
    let query = match project {
        Some(p) => Statement::all(COMMITS_OF_PROJECT_SQL).supplied(0).int4(limit).text(p),
        None => Statement::all(ALL_COMMITS_SQL).supplied(0).int4(limit),
    };
    assert(query@ =~= commits_query(limit, opt_str(project)));
    Ok(tune(ef_search, query))
}

pub const INSERT_COMMIT_FILE_SQL: &'static str = "INSERT INTO git_commit_files (commit_id, file_path, change_type)
         VALUES ($1, $2, $3)
         ON CONFLICT (commit_id, file_path) DO NOTHING";

/// Records that a commit changed a file, and in which way, by one letter.
pub fn insert_commit_file(commit_id: i64, file_path: &str, change_type: char) -> (st: Statement)
    ensures
        st@ == executes(
            INSERT_COMMIT_FILE_SQL@,
            seq![
                BindView::BigInt(commit_id),
                BindView::Text(file_path@),
                BindView::Text(Seq::<char>::empty().push(change_type)),
            ],
        ),
        opens(st@.sql, "INSERT INTO git_commit_files"@),
        fills(
            st@,
            "INSERT INTO git_commit_files"@,
            "commit_id"@,
            "VALUES ("@,
            BindView::BigInt(commit_id),
        ),
        fills(
            st@,
            "INSERT INTO git_commit_files"@,
            "file_path"@,
            "VALUES ("@,
            BindView::Text(file_path@),
        ),
        fills(
            st@,
            "INSERT INTO git_commit_files"@,
            "change_type"@,
            "VALUES ("@,
            BindView::Text(Seq::<char>::empty().push(change_type)),
        ),
        says(st@.sql, "ON CONFLICT (commit_id, file_path) DO NOTHING"@),
{
    proof {
        insert_commit_file_text();
    }
    let mut letter = String::new();
    letter.push(change_type);
    let st = Statement::execute(INSERT_COMMIT_FILE_SQL).int8(commit_id).text(file_path).text(letter.as_str());
    assert(st@.sql == INSERT_COMMIT_FILE_SQL@);
    st
}

pub const GET_COMMITS_MISSING_FILES_SQL: &'static str = "SELECT gc.id, gc.commit_hash
         FROM git_commits gc
         WHERE gc.project_id = $1
           AND NOT EXISTS (
               SELECT 1 FROM git_commit_files gcf WHERE gcf.commit_id = gc.id
           )
         ORDER BY gc.id";

/// The commits of a project without any recorded file.
pub fn get_commits_missing_files(project_id: i32) -> (st: Statement)
    ensures
        st@ == fetches_all(GET_COMMITS_MISSING_FILES_SQL@, seq![BindView::Int(project_id)]),
        opens(st@.sql, "SELECT"@),
        takes(st@, "gc.project_id = "@, BindView::Int(project_id)),
        says(st@.sql, "AND NOT EXISTS ("@),
        says(st@.sql, "ORDER BY gc.id"@),
        says(st@.sql, "FROM git_commits"@),
{
    proof {
        get_commits_missing_files_text();
    }
    let st = Statement::all(GET_COMMITS_MISSING_FILES_SQL).int4(project_id);
    assert(st@.sql == GET_COMMITS_MISSING_FILES_SQL@);
    st
}

pub const HAS_COMMIT_FILES_FOR_PROJECT_SQL: &'static str = "SELECT COUNT(*) FROM git_commit_files gcf
         JOIN git_commits gc ON gc.id = gcf.commit_id
         JOIN projects p ON p.id = gc.project_id
         WHERE p.name = $1
         LIMIT 1";

/// How many files of commits are recorded for a project.
pub fn has_commit_files_for_project(project: &str) -> (st: Statement)
    ensures
        st@ == fetches_one(HAS_COMMIT_FILES_FOR_PROJECT_SQL@, seq![BindView::Text(project@)]),
        opens(st@.sql, "SELECT COUNT(*) FROM git_commit_files"@),
        takes(st@, "p.name = "@, BindView::Text(project@)),
{
    proof {
        has_commit_files_for_project_text();
    }
    let st = Statement::one(HAS_COMMIT_FILES_FOR_PROJECT_SQL).text(project);
    assert(st@.sql == HAS_COMMIT_FILES_FOR_PROJECT_SQL@);
    st
}

pub const HAS_COMMIT_FILES_FOR_PROJECT_ID_SQL: &'static str = "SELECT EXISTS (
             SELECT 1
             FROM git_commit_files gcf
             JOIN git_commits gc ON gc.id = gcf.commit_id
             WHERE gc.project_id = $1
             LIMIT 1
         )";

/// Whether any file of a commit is recorded for a project.
pub fn has_commit_files_for_project_id(project_id: i32) -> (st: Statement)
    ensures
        st@ == fetches_one(HAS_COMMIT_FILES_FOR_PROJECT_ID_SQL@, seq![BindView::Int(project_id)]),
        opens(st@.sql, "SELECT"@),
        takes(st@, "gc.project_id = "@, BindView::Int(project_id)),
        says(st@.sql, "FROM git_commit_files"@),
{
    proof {
        has_commit_files_for_project_id_text();
    }
    let st = Statement::one(HAS_COMMIT_FILES_FOR_PROJECT_ID_SQL).int4(project_id);
    assert(st@.sql == HAS_COMMIT_FILES_FOR_PROJECT_ID_SQL@);
    st
}

} // verus!
