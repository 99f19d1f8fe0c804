//! What the statements of `git` say.
use vstd::prelude::*;

use crate::meaning::{
    item, lined_up_at, lines_up, mentions, opens, part_at, past, past_blanks, says, takes,
};
use crate::queries::git::{
    commits_query, ALL_COMMITS_SQL, COMMITS_OF_PROJECT_SQL, GET_COMMITS_MISSING_FILES_SQL,
    HAS_COMMIT_FILES_FOR_PROJECT_ID_SQL, HAS_COMMIT_FILES_FOR_PROJECT_SQL, INSERT_COMMIT_FILE_SQL,
    INSERT_GIT_COMMIT_CHUNK_SQL, UPDATE_BLAME_FOR_FILE_SQL, UPSERT_GIT_COMMIT_SQL,
};
use crate::statement::BindView;

verus! {

/// What the text of [`UPSERT_GIT_COMMIT_SQL`] says.
pub proof fn upsert_git_commit_text()
    ensures
        opens(UPSERT_GIT_COMMIT_SQL@, "INSERT INTO git_commits"@),
        lines_up(UPSERT_GIT_COMMIT_SQL@, "INSERT INTO git_commits"@, "project_id"@, "VALUES ("@, 1),
        lines_up(
            UPSERT_GIT_COMMIT_SQL@,
            "INSERT INTO git_commits"@,
            "commit_hash"@,
            "VALUES ("@,
            2,
        ),
        lines_up(UPSERT_GIT_COMMIT_SQL@, "INSERT INTO git_commits"@, "author"@, "VALUES ("@, 3),
        lines_up(
            UPSERT_GIT_COMMIT_SQL@,
            "INSERT INTO git_commits"@,
            "author_date"@,
            "VALUES ("@,
            4,
        ),
        lines_up(UPSERT_GIT_COMMIT_SQL@, "INSERT INTO git_commits"@, "subject"@, "VALUES ("@, 5),
        lines_up(UPSERT_GIT_COMMIT_SQL@, "INSERT INTO git_commits"@, "body"@, "VALUES ("@, 6),
        says(UPSERT_GIT_COMMIT_SQL@, "ON CONFLICT (project_id, commit_hash) DO UPDATE SET"@),
        says(UPSERT_GIT_COMMIT_SQL@, "author = EXCLUDED.author"@),
        says(UPSERT_GIT_COMMIT_SQL@, "author_date = EXCLUDED.author_date"@),
        says(UPSERT_GIT_COMMIT_SQL@, "subject = EXCLUDED.subject"@),
        says(UPSERT_GIT_COMMIT_SQL@, "body = EXCLUDED.body"@),
{
    reveal_strlit(
        "INSERT INTO git_commits (project_id, commit_hash, author, author_date, subject, body)
         VALUES ($1, $2, $3, $4, $5, $6)
         ON CONFLICT (project_id, commit_hash) DO UPDATE SET
            author = EXCLUDED.author,
            author_date = EXCLUDED.author_date,
            subject = EXCLUDED.subject,
            body = EXCLUDED.body
         RETURNING id",
    );
    reveal_strlit("INSERT INTO git_commits");
    reveal_strlit("ON CONFLICT (project_id, commit_hash) DO UPDATE SET");
    reveal_strlit("VALUES (");
    reveal_strlit("author");
    reveal_strlit("author = EXCLUDED.author");
    reveal_strlit("author_date");
    reveal_strlit("author_date = EXCLUDED.author_date");
    reveal_strlit("body");
    reveal_strlit("body = EXCLUDED.body");
    reveal_strlit("commit_hash");
    reveal_strlit("project_id");
    reveal_strlit("subject");
    reveal_strlit("subject = EXCLUDED.subject");
    let t = UPSERT_GIT_COMMIT_SQL@;
    assert(part_at(t, 0, "INSERT INTO git_commits"@));
    reveal_with_fuel(past, 13);
    reveal_with_fuel(past_blanks, 2);
    assert(past(t, 23, '(') == 25);
    assert(item(t, 25, 0) == 25);
    assert(item(t, 25, 1) == 37);
    assert(item(t, 25, 2) == 50);
    assert(item(t, 25, 3) == 58);
    assert(item(t, 25, 4) == 71);
    assert(item(t, 25, 5) == 80);
    assert(item(t, 103, 0) == 103);
    assert(item(t, 103, 1) == 107);
    assert(item(t, 103, 2) == 111);
    assert(item(t, 103, 3) == 115);
    assert(item(t, 103, 4) == 119);
    assert(item(t, 103, 5) == 123);
    assert(lined_up_at(t, "INSERT INTO git_commits"@, "project_id"@, "VALUES ("@, 1, 0, 95, 0));
    assert(lined_up_at(t, "INSERT INTO git_commits"@, "commit_hash"@, "VALUES ("@, 2, 0, 95, 1));
    assert(lined_up_at(t, "INSERT INTO git_commits"@, "author"@, "VALUES ("@, 3, 0, 95, 2));
    assert(lined_up_at(t, "INSERT INTO git_commits"@, "author_date"@, "VALUES ("@, 4, 0, 95, 3));
    assert(lined_up_at(t, "INSERT INTO git_commits"@, "subject"@, "VALUES ("@, 5, 0, 95, 4));
    assert(lined_up_at(t, "INSERT INTO git_commits"@, "body"@, "VALUES ("@, 6, 0, 95, 5));
    assert(part_at(t, 136, "ON CONFLICT (project_id, commit_hash) DO UPDATE SET"@));
    assert(part_at(t, 200, "author = EXCLUDED.author"@));
    assert(part_at(t, 238, "author_date = EXCLUDED.author_date"@));
    assert(part_at(t, 286, "subject = EXCLUDED.subject"@));
    assert(part_at(t, 326, "body = EXCLUDED.body"@));
}

/// What the text of [`INSERT_GIT_COMMIT_CHUNK_SQL`] says.
pub proof fn insert_git_commit_chunk_text()
    ensures
        opens(INSERT_GIT_COMMIT_CHUNK_SQL@, "INSERT INTO git_commit_chunks"@),
        lines_up(
            INSERT_GIT_COMMIT_CHUNK_SQL@,
            "INSERT INTO git_commit_chunks"@,
            "commit_id"@,
            "VALUES ("@,
            1,
        ),
        lines_up(
            INSERT_GIT_COMMIT_CHUNK_SQL@,
            "INSERT INTO git_commit_chunks"@,
            "chunk_index"@,
            "VALUES ("@,
            2,
        ),
        lines_up(
            INSERT_GIT_COMMIT_CHUNK_SQL@,
            "INSERT INTO git_commit_chunks"@,
            "content"@,
            "VALUES ("@,
            3,
        ),
        lines_up(
            INSERT_GIT_COMMIT_CHUNK_SQL@,
            "INSERT INTO git_commit_chunks"@,
            "embedding_v2"@,
            "VALUES ("@,
            4,
        ),
        says(INSERT_GIT_COMMIT_CHUNK_SQL@, "ON CONFLICT (commit_id, chunk_index) DO UPDATE SET"@),
        says(INSERT_GIT_COMMIT_CHUNK_SQL@, "content = EXCLUDED.content"@),
        says(INSERT_GIT_COMMIT_CHUNK_SQL@, "embedding_v2 = EXCLUDED.embedding_v2"@),
        says(INSERT_GIT_COMMIT_CHUNK_SQL@, "embedding_signature = EXCLUDED.embedding_signature"@),
{
    reveal_strlit(
        "INSERT INTO git_commit_chunks
            (commit_id, chunk_index, content, embedding_v2, embedding_signature)
         VALUES ($1, $2, $3, $4, 'bge-m3-v1')
         ON CONFLICT (commit_id, chunk_index) DO UPDATE SET
            content = EXCLUDED.content,
            embedding_v2 = EXCLUDED.embedding_v2,
            embedding_signature = EXCLUDED.embedding_signature",
    );
    reveal_strlit("INSERT INTO git_commit_chunks");
    reveal_strlit("ON CONFLICT (commit_id, chunk_index) DO UPDATE SET");
    reveal_strlit("VALUES (");
    reveal_strlit("chunk_index");
    reveal_strlit("commit_id");
    reveal_strlit("content");
    reveal_strlit("content = EXCLUDED.content");
    reveal_strlit("embedding_signature = EXCLUDED.embedding_signature");
    reveal_strlit("embedding_v2");
    reveal_strlit("embedding_v2 = EXCLUDED.embedding_v2");
    let t = INSERT_GIT_COMMIT_CHUNK_SQL@;
    assert(part_at(t, 0, "INSERT INTO git_commit_chunks"@));
    reveal_with_fuel(past, 15);
    reveal_with_fuel(past_blanks, 2);
    assert(past(t, 29, '(') == 43);
    assert(item(t, 43, 0) == 43);
    assert(item(t, 43, 1) == 54);
    assert(item(t, 43, 2) == 67);
    assert(item(t, 43, 3) == 76);
    assert(item(t, 128, 0) == 128);
    assert(item(t, 128, 1) == 132);
    assert(item(t, 128, 2) == 136);
    assert(item(t, 128, 3) == 140);
    assert(lined_up_at(
        t,
        "INSERT INTO git_commit_chunks"@,
        "commit_id"@,
        "VALUES ("@,
        1,
        0,
        120,
        0,
    ));
    assert(lined_up_at(
        t,
        "INSERT INTO git_commit_chunks"@,
        "chunk_index"@,
        "VALUES ("@,
        2,
        0,
        120,
        1,
    ));
    assert(lined_up_at(t, "INSERT INTO git_commit_chunks"@, "content"@, "VALUES ("@, 3, 0, 120, 2));
    assert(lined_up_at(
        t,
        "INSERT INTO git_commit_chunks"@,
        "embedding_v2"@,
        "VALUES ("@,
        4,
        0,
        120,
        3,
    ));
    assert(part_at(t, 166, "ON CONFLICT (commit_id, chunk_index) DO UPDATE SET"@));
    assert(part_at(t, 229, "content = EXCLUDED.content"@));
    assert(part_at(t, 269, "embedding_v2 = EXCLUDED.embedding_v2"@));
    assert(part_at(t, 319, "embedding_signature = EXCLUDED.embedding_signature"@));
}

/// What the text of [`UPDATE_BLAME_FOR_FILE_SQL`] says.
pub proof fn update_blame_for_file_text()
    ensures
        opens(UPDATE_BLAME_FOR_FILE_SQL@, "UPDATE file_chunks"@),
        mentions(UPDATE_BLAME_FOR_FILE_SQL@, "blame_commit = "@, 1),
        mentions(UPDATE_BLAME_FOR_FILE_SQL@, "blame_author = "@, 2),
        mentions(UPDATE_BLAME_FOR_FILE_SQL@, "blame_date = "@, 3),
        mentions(UPDATE_BLAME_FOR_FILE_SQL@, "file_id = "@, 4),
        mentions(UPDATE_BLAME_FOR_FILE_SQL@, "end_line >= "@, 5),
        mentions(UPDATE_BLAME_FOR_FILE_SQL@, "start_line <= "@, 6),
{
    reveal_strlit(
        "UPDATE file_chunks SET blame_commit = $1, blame_author = $2, blame_date = $3
         WHERE file_id = $4 AND start_line <= $6 AND end_line >= $5",
    );
    reveal_strlit("UPDATE file_chunks");
    reveal_strlit("blame_author = ");
    reveal_strlit("blame_commit = ");
    reveal_strlit("blame_date = ");
    reveal_strlit("end_line >= ");
    reveal_strlit("file_id = ");
    reveal_strlit("start_line <= ");
    let t = UPDATE_BLAME_FOR_FILE_SQL@;
    assert(part_at(t, 0, "UPDATE file_chunks"@));
    assert(part_at(t, 23, "blame_commit = "@));
    assert(part_at(t, 42, "blame_author = "@));
    assert(part_at(t, 61, "blame_date = "@));
    assert(part_at(t, 92, "file_id = "@));
    assert(part_at(t, 130, "end_line >= "@));
    assert(part_at(t, 109, "start_line <= "@));
}

/// What the text of [`COMMITS_OF_PROJECT_SQL`] says.
pub proof fn commits_of_project_text()
    ensures
        opens(COMMITS_OF_PROJECT_SQL@, "SELECT"@),
        mentions(COMMITS_OF_PROJECT_SQL@, "cc.embedding_v2 <=> "@, 1),
        mentions(COMMITS_OF_PROJECT_SQL@, "LIMIT "@, 2),
        mentions(COMMITS_OF_PROJECT_SQL@, "p.name = "@, 3),
        says(COMMITS_OF_PROJECT_SQL@, "FROM git_commit_chunks"@),
        says(COMMITS_OF_PROJECT_SQL@, "JOIN git_commits g ON g.id = cc.commit_id"@),
        says(COMMITS_OF_PROJECT_SQL@, "JOIN projects p ON p.id = g.project_id"@),
{
    reveal_strlit(
        "SELECT g.commit_hash, g.author, g.author_date, g.subject,
                    cc.content as chunk_content,
                    1 - (cc.embedding_v2 <=> $1) as score,
                    p.name as project_name
             FROM git_commit_chunks cc
             JOIN git_commits g ON g.id = cc.commit_id
             JOIN projects p ON p.id = g.project_id
             WHERE p.name = $3 AND cc.embedding_v2 IS NOT NULL
             ORDER BY cc.embedding_v2 <=> $1
             LIMIT $2",
    );
    reveal_strlit("FROM git_commit_chunks");
    reveal_strlit("JOIN git_commits g ON g.id = cc.commit_id");
    reveal_strlit("JOIN projects p ON p.id = g.project_id");
    reveal_strlit("LIMIT ");
    reveal_strlit("SELECT");
    reveal_strlit("cc.embedding_v2 <=> ");
    reveal_strlit("p.name = ");
    let t = COMMITS_OF_PROJECT_SQL@;
    assert(part_at(t, 0, "SELECT"@));
    assert(part_at(t, 132, "cc.embedding_v2 <=> "@));
    assert(part_at(t, 476, "LIMIT "@));
    assert(part_at(t, 374, "p.name = "@));
    assert(part_at(t, 222, "FROM git_commit_chunks"@));
    assert(part_at(t, 261, "JOIN git_commits g ON g.id = cc.commit_id"@));
    assert(part_at(t, 316, "JOIN projects p ON p.id = g.project_id"@));
}

/// What the text of [`ALL_COMMITS_SQL`] says.
pub proof fn all_commits_text()
    ensures
        opens(ALL_COMMITS_SQL@, "SELECT"@),
        mentions(ALL_COMMITS_SQL@, "cc.embedding_v2 <=> "@, 1),
        mentions(ALL_COMMITS_SQL@, "LIMIT "@, 2),
        says(ALL_COMMITS_SQL@, "WHERE cc.embedding_v2 IS NOT NULL"@),
        says(ALL_COMMITS_SQL@, "FROM git_commit_chunks"@),
        says(ALL_COMMITS_SQL@, "JOIN git_commits g ON g.id = cc.commit_id"@),
        says(ALL_COMMITS_SQL@, "JOIN projects p ON p.id = g.project_id"@),
{
    reveal_strlit(
        "SELECT g.commit_hash, g.author, g.author_date, g.subject,
                    cc.content as chunk_content,
                    1 - (cc.embedding_v2 <=> $1) as score,
                    p.name as project_name
             FROM git_commit_chunks cc
             JOIN git_commits g ON g.id = cc.commit_id
             JOIN projects p ON p.id = g.project_id
             WHERE cc.embedding_v2 IS NOT NULL
             ORDER BY cc.embedding_v2 <=> $1
             LIMIT $2",
    );
    reveal_strlit("FROM git_commit_chunks");
    reveal_strlit("JOIN git_commits g ON g.id = cc.commit_id");
    reveal_strlit("JOIN projects p ON p.id = g.project_id");
    reveal_strlit("LIMIT ");
    reveal_strlit("SELECT");
    reveal_strlit("WHERE cc.embedding_v2 IS NOT NULL");
    reveal_strlit("cc.embedding_v2 <=> ");
    let t = ALL_COMMITS_SQL@;
    assert(part_at(t, 0, "SELECT"@));
    assert(part_at(t, 132, "cc.embedding_v2 <=> "@));
    assert(part_at(t, 460, "LIMIT "@));
    assert(part_at(t, 368, "WHERE cc.embedding_v2 IS NOT NULL"@));
    assert(part_at(t, 222, "FROM git_commit_chunks"@));
    assert(part_at(t, 261, "JOIN git_commits g ON g.id = cc.commit_id"@));
    assert(part_at(t, 316, "JOIN projects p ON p.id = g.project_id"@));
}

/// What the text of [`INSERT_COMMIT_FILE_SQL`] says.
pub proof fn insert_commit_file_text()
    ensures
        opens(INSERT_COMMIT_FILE_SQL@, "INSERT INTO git_commit_files"@),
        lines_up(
            INSERT_COMMIT_FILE_SQL@,
            "INSERT INTO git_commit_files"@,
            "commit_id"@,
            "VALUES ("@,
            1,
        ),
        lines_up(
            INSERT_COMMIT_FILE_SQL@,
            "INSERT INTO git_commit_files"@,
            "file_path"@,
            "VALUES ("@,
            2,
        ),
        lines_up(
            INSERT_COMMIT_FILE_SQL@,
            "INSERT INTO git_commit_files"@,
            "change_type"@,
            "VALUES ("@,
            3,
        ),
        says(INSERT_COMMIT_FILE_SQL@, "ON CONFLICT (commit_id, file_path) DO NOTHING"@),
{
    reveal_strlit(
        "INSERT INTO git_commit_files (commit_id, file_path, change_type)
         VALUES ($1, $2, $3)
         ON CONFLICT (commit_id, file_path) DO NOTHING",
    );
    reveal_strlit("INSERT INTO git_commit_files");
    reveal_strlit("ON CONFLICT (commit_id, file_path) DO NOTHING");
    reveal_strlit("VALUES (");
    reveal_strlit("change_type");
    reveal_strlit("commit_id");
    reveal_strlit("file_path");
    let t = INSERT_COMMIT_FILE_SQL@;
    assert(part_at(t, 0, "INSERT INTO git_commit_files"@));
    reveal_with_fuel(past, 11);
    reveal_with_fuel(past_blanks, 2);
    assert(past(t, 28, '(') == 30);
    assert(item(t, 30, 0) == 30);
    assert(item(t, 30, 1) == 41);
    assert(item(t, 30, 2) == 52);
    assert(item(t, 82, 0) == 82);
    assert(item(t, 82, 1) == 86);
    assert(item(t, 82, 2) == 90);
    assert(lined_up_at(t, "INSERT INTO git_commit_files"@, "commit_id"@, "VALUES ("@, 1, 0, 74, 0));
    assert(lined_up_at(t, "INSERT INTO git_commit_files"@, "file_path"@, "VALUES ("@, 2, 0, 74, 1));
    assert(lined_up_at(
        t,
        "INSERT INTO git_commit_files"@,
        "change_type"@,
        "VALUES ("@,
        3,
        0,
        74,
        2,
    ));
    assert(part_at(t, 103, "ON CONFLICT (commit_id, file_path) DO NOTHING"@));
}

/// What the text of [`GET_COMMITS_MISSING_FILES_SQL`] says.
pub proof fn get_commits_missing_files_text()
    ensures
        opens(GET_COMMITS_MISSING_FILES_SQL@, "SELECT"@),
        mentions(GET_COMMITS_MISSING_FILES_SQL@, "gc.project_id = "@, 1),
        says(GET_COMMITS_MISSING_FILES_SQL@, "AND NOT EXISTS ("@),
        says(GET_COMMITS_MISSING_FILES_SQL@, "ORDER BY gc.id"@),
        says(GET_COMMITS_MISSING_FILES_SQL@, "FROM git_commits"@),
{
    reveal_strlit(
        "SELECT gc.id, gc.commit_hash
         FROM git_commits gc
         WHERE gc.project_id = $1
           AND NOT EXISTS (
               SELECT 1 FROM git_commit_files gcf WHERE gcf.commit_id = gc.id
           )
         ORDER BY gc.id",
    );
    reveal_strlit("AND NOT EXISTS (");
    reveal_strlit("FROM git_commits");
    reveal_strlit("ORDER BY gc.id");
    reveal_strlit("SELECT");
    reveal_strlit("gc.project_id = ");
    let t = GET_COMMITS_MISSING_FILES_SQL@;
    assert(part_at(t, 0, "SELECT"@));
    assert(part_at(t, 73, "gc.project_id = "@));
    assert(part_at(t, 103, "AND NOT EXISTS ("@));
    assert(part_at(t, 220, "ORDER BY gc.id"@));
    assert(part_at(t, 38, "FROM git_commits"@));
}

/// What the text of [`HAS_COMMIT_FILES_FOR_PROJECT_SQL`] says.
pub proof fn has_commit_files_for_project_text()
    ensures
        opens(HAS_COMMIT_FILES_FOR_PROJECT_SQL@, "SELECT COUNT(*) FROM git_commit_files"@),
        mentions(HAS_COMMIT_FILES_FOR_PROJECT_SQL@, "p.name = "@, 1),
        says(HAS_COMMIT_FILES_FOR_PROJECT_SQL@, "JOIN git_commits gc ON gc.id = gcf.commit_id"@),
        says(HAS_COMMIT_FILES_FOR_PROJECT_SQL@, "JOIN projects p ON p.id = gc.project_id"@),
{
    reveal_strlit(
        "SELECT COUNT(*) FROM git_commit_files gcf
         JOIN git_commits gc ON gc.id = gcf.commit_id
         JOIN projects p ON p.id = gc.project_id
         WHERE p.name = $1
         LIMIT 1",
    );
    reveal_strlit("JOIN git_commits gc ON gc.id = gcf.commit_id");
    reveal_strlit("JOIN projects p ON p.id = gc.project_id");
    reveal_strlit("SELECT COUNT(*) FROM git_commit_files");
    reveal_strlit("p.name = ");
    let t = HAS_COMMIT_FILES_FOR_PROJECT_SQL@;
    assert(part_at(t, 0, "SELECT COUNT(*) FROM git_commit_files"@));
    assert(part_at(t, 160, "p.name = "@));
    assert(part_at(t, 51, "JOIN git_commits gc ON gc.id = gcf.commit_id"@));
    assert(part_at(t, 105, "JOIN projects p ON p.id = gc.project_id"@));
}

/// What the text of [`HAS_COMMIT_FILES_FOR_PROJECT_ID_SQL`] says.
pub proof fn has_commit_files_for_project_id_text()
    ensures
        opens(HAS_COMMIT_FILES_FOR_PROJECT_ID_SQL@, "SELECT"@),
        mentions(HAS_COMMIT_FILES_FOR_PROJECT_ID_SQL@, "gc.project_id = "@, 1),
        says(HAS_COMMIT_FILES_FOR_PROJECT_ID_SQL@, "FROM git_commit_files"@),
        says(HAS_COMMIT_FILES_FOR_PROJECT_ID_SQL@, "JOIN git_commits gc ON gc.id = gcf.commit_id"@),
{
    reveal_strlit(
        "SELECT EXISTS (
             SELECT 1
             FROM git_commit_files gcf
             JOIN git_commits gc ON gc.id = gcf.commit_id
             WHERE gc.project_id = $1
             LIMIT 1
         )",
    );
    reveal_strlit("FROM git_commit_files");
    reveal_strlit("JOIN git_commits gc ON gc.id = gcf.commit_id");
    reveal_strlit("SELECT");
    reveal_strlit("gc.project_id = ");
    let t = HAS_COMMIT_FILES_FOR_PROJECT_ID_SQL@;
    assert(part_at(t, 0, "SELECT"@));
    assert(part_at(t, 154, "gc.project_id = "@));
    assert(part_at(t, 51, "FROM git_commit_files"@));
    assert(part_at(t, 90, "JOIN git_commits gc ON gc.id = gcf.commit_id"@));
}

/// Commits are searched in the project that is given, or in all.
pub proof fn law_commits_are_of_the_project(limit: i32, project: Option<Seq<char>>)
    ensures
        project is Some ==> opens(commits_query(limit, project).sql, "SELECT"@),
        project is Some ==> takes(
            commits_query(limit, project),
            "cc.embedding_v2 <=> "@,
            BindView::Supplied(0),
        ),
        project is Some ==> takes(commits_query(limit, project), "LIMIT "@, BindView::Int(limit)),
        project is Some ==> takes(
            commits_query(limit, project),
            "p.name = "@,
            BindView::Text(project->0),
        ),
        project is Some ==> says(commits_query(limit, project).sql, "FROM git_commit_chunks"@),
        project is Some ==> says(
            commits_query(limit, project).sql,
            "JOIN git_commits g ON g.id = cc.commit_id"@,
        ),
        project is Some ==> says(
            commits_query(limit, project).sql,
            "JOIN projects p ON p.id = g.project_id"@,
        ),
        project is None ==> opens(commits_query(limit, project).sql, "SELECT"@),
        project is None ==> takes(
            commits_query(limit, project),
            "cc.embedding_v2 <=> "@,
            BindView::Supplied(0),
        ),
        project is None ==> takes(commits_query(limit, project), "LIMIT "@, BindView::Int(limit)),
        project is None ==> says(
            commits_query(limit, project).sql,
            "WHERE cc.embedding_v2 IS NOT NULL"@,
        ),
        project is None ==> says(commits_query(limit, project).sql, "FROM git_commit_chunks"@),
        project is None ==> says(
            commits_query(limit, project).sql,
            "JOIN git_commits g ON g.id = cc.commit_id"@,
        ),
        project is None ==> says(
            commits_query(limit, project).sql,
            "JOIN projects p ON p.id = g.project_id"@,
        ),
{
    if project is Some {
        commits_of_project_text();
        assert(commits_query(limit, project).sql == COMMITS_OF_PROJECT_SQL@);
    }
    if project is None {
        all_commits_text();
        assert(commits_query(limit, project).sql == ALL_COMMITS_SQL@);
    }
}

} // verus!
