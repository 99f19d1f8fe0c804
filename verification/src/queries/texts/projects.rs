//! What the statements of `projects` say.
use vstd::prelude::*;

use crate::meaning::{
    item, lined_up_at, lines_up, mentions, opens, part_at, past, past_blanks, says,
};
use crate::queries::projects::{
    CLEANUP_ORPHANED_PROJECTS_SQL, DELETE_PROJECTS_BY_WORKSPACE_SQL, FIND_PROJECT_BY_CWD_SQL,
    FIND_PROJECT_ID_BY_CWD_SQL, GET_GIT_ENABLED_PROJECTS_SQL, LANGUAGE_SUMMARY_SQL,
    LIST_LANGUAGES_SQL, LIST_PROJECTS_SQL, LIST_PROJECT_NAMES_SQL,
    SELECT_MAIN_WORKTREE_PROJECTS_SQL, UPDATE_PROJECTS_SCANNED_BY_WORKSPACE_SQL,
    UPDATE_PROJECT_SCANNED_SQL, UPSERT_PROJECT_SQL,
};

verus! {

/// What the text of [`UPSERT_PROJECT_SQL`] says.
pub proof fn upsert_project_text()
    ensures
        opens(UPSERT_PROJECT_SQL@, "INSERT INTO projects"@),
        lines_up(UPSERT_PROJECT_SQL@, "INSERT INTO projects"@, "workspace_path"@, "VALUES ("@, 1),
        lines_up(UPSERT_PROJECT_SQL@, "INSERT INTO projects"@, "path"@, "VALUES ("@, 2),
        lines_up(UPSERT_PROJECT_SQL@, "INSERT INTO projects"@, "name"@, "VALUES ("@, 3),
        lines_up(UPSERT_PROJECT_SQL@, "INSERT INTO projects"@, "git_common_dir"@, "VALUES ("@, 4),
        lines_up(UPSERT_PROJECT_SQL@, "INSERT INTO projects"@, "git_root_commits"@, "VALUES ("@, 5),
        says(UPSERT_PROJECT_SQL@, "ON CONFLICT (path) DO UPDATE SET"@),
        says(UPSERT_PROJECT_SQL@, "workspace_path = EXCLUDED.workspace_path"@),
        says(UPSERT_PROJECT_SQL@, "name = EXCLUDED.name"@),
        says(UPSERT_PROJECT_SQL@, "git_common_dir = EXCLUDED.git_common_dir"@),
        says(UPSERT_PROJECT_SQL@, "git_root_commits = EXCLUDED.git_root_commits"@),
{
    reveal_strlit(
        "INSERT INTO projects (workspace_path, path, name, git_common_dir, git_root_commits, last_scanned_at)
         VALUES ($1, $2, $3, $4, $5, NOW())
         ON CONFLICT (path) DO UPDATE SET
            workspace_path = EXCLUDED.workspace_path,
            name = EXCLUDED.name,
            git_common_dir = EXCLUDED.git_common_dir,
            git_root_commits = EXCLUDED.git_root_commits,
            last_scanned_at = NOW()
         RETURNING id",
    );
    reveal_strlit("INSERT INTO projects");
    reveal_strlit("ON CONFLICT (path) DO UPDATE SET");
    reveal_strlit("VALUES (");
    reveal_strlit("git_common_dir");
    reveal_strlit("git_common_dir = EXCLUDED.git_common_dir");
    reveal_strlit("git_root_commits");
    reveal_strlit("git_root_commits = EXCLUDED.git_root_commits");
    reveal_strlit("name");
    reveal_strlit("name = EXCLUDED.name");
    reveal_strlit("path");
    reveal_strlit("workspace_path");
    reveal_strlit("workspace_path = EXCLUDED.workspace_path");
    let t = UPSERT_PROJECT_SQL@;
    assert(part_at(t, 0, "INSERT INTO projects"@));
    reveal_with_fuel(past, 16);
    reveal_with_fuel(past_blanks, 2);
    assert(past(t, 20, '(') == 22);
    assert(item(t, 22, 0) == 22);
    assert(item(t, 22, 1) == 38);
    assert(item(t, 22, 2) == 44);
    assert(item(t, 22, 3) == 50);
    assert(item(t, 22, 4) == 66);
    assert(item(t, 118, 0) == 118);
    assert(item(t, 118, 1) == 122);
    assert(item(t, 118, 2) == 126);
    assert(item(t, 118, 3) == 130);
    assert(item(t, 118, 4) == 134);
    assert(lined_up_at(t, "INSERT INTO projects"@, "workspace_path"@, "VALUES ("@, 1, 0, 110, 0));
    assert(lined_up_at(t, "INSERT INTO projects"@, "path"@, "VALUES ("@, 2, 0, 110, 1));
    assert(lined_up_at(t, "INSERT INTO projects"@, "name"@, "VALUES ("@, 3, 0, 110, 2));
    assert(lined_up_at(t, "INSERT INTO projects"@, "git_common_dir"@, "VALUES ("@, 4, 0, 110, 3));
    assert(lined_up_at(t, "INSERT INTO projects"@, "git_root_commits"@, "VALUES ("@, 5, 0, 110, 4));
    assert(part_at(t, 154, "ON CONFLICT (path) DO UPDATE SET"@));
    assert(part_at(t, 199, "workspace_path = EXCLUDED.workspace_path"@));
    assert(part_at(t, 253, "name = EXCLUDED.name"@));
    assert(part_at(t, 287, "git_common_dir = EXCLUDED.git_common_dir"@));
    assert(part_at(t, 341, "git_root_commits = EXCLUDED.git_root_commits"@));
}

/// What the text of [`LIST_PROJECTS_SQL`] says.
pub proof fn list_projects_text()
    ensures
        opens(LIST_PROJECTS_SQL@, "SELECT"@),
        says(LIST_PROJECTS_SQL@, "GROUP BY p.id"@),
        says(LIST_PROJECTS_SQL@, "ORDER BY p.name"@),
        says(LIST_PROJECTS_SQL@, "FROM projects"@),
        says(LIST_PROJECTS_SQL@, "LEFT JOIN indexed_files f ON f.project_id = p.id"@),
{
    reveal_strlit(
        "SELECT p.id, p.workspace_path, p.path, p.name,
                p.git_common_dir, p.git_root_commits,
                p.discovered_at, p.last_scanned_at,
                COUNT(f.id) as file_count
         FROM projects p
         LEFT JOIN indexed_files f ON f.project_id = p.id
         GROUP BY p.id
         ORDER BY p.name",
    );
    reveal_strlit("FROM projects");
    reveal_strlit("GROUP BY p.id");
    reveal_strlit("LEFT JOIN indexed_files f ON f.project_id = p.id");
    reveal_strlit("ORDER BY p.name");
    reveal_strlit("SELECT");
    let t = LIST_PROJECTS_SQL@;
    assert(part_at(t, 0, "SELECT"@));
    assert(part_at(t, 287, "GROUP BY p.id"@));
    assert(part_at(t, 310, "ORDER BY p.name"@));
    assert(part_at(t, 204, "FROM projects"@));
    assert(part_at(t, 229, "LEFT JOIN indexed_files f ON f.project_id = p.id"@));
}

/// What the text of [`FIND_PROJECT_BY_CWD_SQL`] says.
#[verifier::rlimit(50)]
pub proof fn find_project_by_cwd_text()
    ensures
        opens(FIND_PROJECT_BY_CWD_SQL@, "SELECT"@),
        mentions(FIND_PROJECT_BY_CWD_SQL@, "starts_with("@, 1),
        says(FIND_PROJECT_BY_CWD_SQL@, "ORDER BY LENGTH(p.path) DESC"@),
        says(FIND_PROJECT_BY_CWD_SQL@, "FROM indexed_files"@),
{
    reveal_strlit(
        "SELECT p.id, p.workspace_path, p.path, p.name,
                p.git_common_dir, p.git_root_commits,
                p.discovered_at, p.last_scanned_at,
                (SELECT COUNT(*) FROM indexed_files f WHERE f.project_id = p.id) AS file_count
         FROM projects p
         WHERE $1 = p.path
            OR starts_with($1, CASE
                 WHEN right(p.path, 1) = '/' THEN p.path
                 ELSE p.path || '/'
               END)
         ORDER BY LENGTH(p.path) DESC
         LIMIT 1",
    );
    reveal_strlit("FROM indexed_files");
    reveal_strlit("ORDER BY LENGTH(p.path) DESC");
    reveal_strlit("SELECT");
    reveal_strlit("starts_with(");
    let t = FIND_PROJECT_BY_CWD_SQL@;
    assert(part_at(t, 0, "SELECT"@));
    assert(part_at(t, 315, "starts_with("@));
    assert(part_at(t, 458, "ORDER BY LENGTH(p.path) DESC"@));
    assert(part_at(t, 186, "FROM indexed_files"@));
}

/// What the text of [`SELECT_MAIN_WORKTREE_PROJECTS_SQL`] says.
pub proof fn select_main_worktree_projects_text()
    ensures
        opens(SELECT_MAIN_WORKTREE_PROJECTS_SQL@, "SELECT"@),
        says(SELECT_MAIN_WORKTREE_PROJECTS_SQL@, "FROM projects"@),
{
    reveal_strlit(
        "SELECT id, path, git_common_dir, git_root_commits FROM projects",
    );
    reveal_strlit("FROM projects");
    reveal_strlit("SELECT");
    let t = SELECT_MAIN_WORKTREE_PROJECTS_SQL@;
    assert(part_at(t, 0, "SELECT"@));
    assert(part_at(t, 50, "FROM projects"@));
}

/// What the text of [`LANGUAGE_SUMMARY_SQL`] says.
pub proof fn language_summary_text()
    ensures
        opens(LANGUAGE_SUMMARY_SQL@, "SELECT"@),
        mentions(LANGUAGE_SUMMARY_SQL@, "p.name = "@, 1),
        says(LANGUAGE_SUMMARY_SQL@, "GROUP BY f.language"@),
        says(LANGUAGE_SUMMARY_SQL@, "ORDER BY count DESC"@),
        says(LANGUAGE_SUMMARY_SQL@, "FROM indexed_files"@),
        says(LANGUAGE_SUMMARY_SQL@, "JOIN projects p ON f.project_id = p.id"@),
{
    reveal_strlit(
        "SELECT f.language, COUNT(*) as count
         FROM indexed_files f
         JOIN projects p ON f.project_id = p.id
         WHERE p.name = $1
         GROUP BY f.language
         ORDER BY count DESC",
    );
    reveal_strlit("FROM indexed_files");
    reveal_strlit("GROUP BY f.language");
    reveal_strlit("JOIN projects p ON f.project_id = p.id");
    reveal_strlit("ORDER BY count DESC");
    reveal_strlit("SELECT");
    reveal_strlit("p.name = ");
    let t = LANGUAGE_SUMMARY_SQL@;
    assert(part_at(t, 0, "SELECT"@));
    assert(part_at(t, 130, "p.name = "@));
    assert(part_at(t, 151, "GROUP BY f.language"@));
    assert(part_at(t, 180, "ORDER BY count DESC"@));
    assert(part_at(t, 46, "FROM indexed_files"@));
    assert(part_at(t, 76, "JOIN projects p ON f.project_id = p.id"@));
}

/// What the text of [`UPDATE_PROJECT_SCANNED_SQL`] says.
pub proof fn update_project_scanned_text()
    ensures
        opens(UPDATE_PROJECT_SCANNED_SQL@, "UPDATE projects"@),
        mentions(UPDATE_PROJECT_SCANNED_SQL@, "NOW() WHERE id = "@, 1),
{
    reveal_strlit(
        "UPDATE projects SET last_scanned_at = NOW() WHERE id = $1",
    );
    reveal_strlit("NOW() WHERE id = ");
    reveal_strlit("UPDATE projects");
    let t = UPDATE_PROJECT_SCANNED_SQL@;
    assert(part_at(t, 0, "UPDATE projects"@));
    assert(part_at(t, 38, "NOW() WHERE id = "@));
}

/// What the text of [`UPDATE_PROJECTS_SCANNED_BY_WORKSPACE_SQL`] says.
pub proof fn update_projects_scanned_by_workspace_text()
    ensures
        opens(UPDATE_PROJECTS_SCANNED_BY_WORKSPACE_SQL@, "UPDATE projects"@),
        mentions(UPDATE_PROJECTS_SCANNED_BY_WORKSPACE_SQL@, "workspace_path = "@, 1),
{
    reveal_strlit(
        "UPDATE projects SET last_scanned_at = NOW() WHERE workspace_path = $1",
    );
    reveal_strlit("UPDATE projects");
    reveal_strlit("workspace_path = ");
    let t = UPDATE_PROJECTS_SCANNED_BY_WORKSPACE_SQL@;
    assert(part_at(t, 0, "UPDATE projects"@));
    assert(part_at(t, 50, "workspace_path = "@));
}

/// What the text of [`LIST_PROJECT_NAMES_SQL`] says.
pub proof fn list_project_names_text()
    ensures
        opens(LIST_PROJECT_NAMES_SQL@, "SELECT DISTINCT"@),
        says(LIST_PROJECT_NAMES_SQL@, "ORDER BY name"@),
        says(LIST_PROJECT_NAMES_SQL@, "FROM projects"@),
{
    reveal_strlit(
        "SELECT DISTINCT name FROM projects ORDER BY name",
    );
    reveal_strlit("FROM projects");
    reveal_strlit("ORDER BY name");
    reveal_strlit("SELECT DISTINCT");
    let t = LIST_PROJECT_NAMES_SQL@;
    assert(part_at(t, 0, "SELECT DISTINCT"@));
    assert(part_at(t, 35, "ORDER BY name"@));
    assert(part_at(t, 21, "FROM projects"@));
}

/// What the text of [`LIST_LANGUAGES_SQL`] says.
pub proof fn list_languages_text()
    ensures
        opens(LIST_LANGUAGES_SQL@, "SELECT DISTINCT"@),
        says(LIST_LANGUAGES_SQL@, "ORDER BY language"@),
        says(LIST_LANGUAGES_SQL@, "FROM indexed_files"@),
{
    reveal_strlit(
        "SELECT DISTINCT language FROM indexed_files ORDER BY language",
    );
    reveal_strlit("FROM indexed_files");
    reveal_strlit("ORDER BY language");
    reveal_strlit("SELECT DISTINCT");
    let t = LIST_LANGUAGES_SQL@;
    assert(part_at(t, 0, "SELECT DISTINCT"@));
    assert(part_at(t, 44, "ORDER BY language"@));
    assert(part_at(t, 25, "FROM indexed_files"@));
}

/// What the text of [`GET_GIT_ENABLED_PROJECTS_SQL`] says.
pub proof fn get_git_enabled_projects_text()
    ensures
        opens(GET_GIT_ENABLED_PROJECTS_SQL@, "SELECT"@),
        says(GET_GIT_ENABLED_PROJECTS_SQL@, "ORDER BY name"@),
        says(GET_GIT_ENABLED_PROJECTS_SQL@, "FROM projects"@),
{
    reveal_strlit(
        "SELECT id, path FROM projects ORDER BY name",
    );
    reveal_strlit("FROM projects");
    reveal_strlit("ORDER BY name");
    reveal_strlit("SELECT");
    let t = GET_GIT_ENABLED_PROJECTS_SQL@;
    assert(part_at(t, 0, "SELECT"@));
    assert(part_at(t, 30, "ORDER BY name"@));
    assert(part_at(t, 16, "FROM projects"@));
}

/// What the text of [`DELETE_PROJECTS_BY_WORKSPACE_SQL`] says.
pub proof fn delete_projects_by_workspace_text()
    ensures
        opens(DELETE_PROJECTS_BY_WORKSPACE_SQL@, "DELETE FROM projects"@),
        mentions(DELETE_PROJECTS_BY_WORKSPACE_SQL@, "workspace_path = "@, 1),
{
    reveal_strlit(
        "DELETE FROM projects WHERE workspace_path = $1",
    );
    reveal_strlit("DELETE FROM projects");
    reveal_strlit("workspace_path = ");
    let t = DELETE_PROJECTS_BY_WORKSPACE_SQL@;
    assert(part_at(t, 0, "DELETE FROM projects"@));
    assert(part_at(t, 27, "workspace_path = "@));
}

/// What the text of [`FIND_PROJECT_ID_BY_CWD_SQL`] says.
pub proof fn find_project_id_by_cwd_text()
    ensures
        opens(FIND_PROJECT_ID_BY_CWD_SQL@, "SELECT"@),
        mentions(FIND_PROJECT_ID_BY_CWD_SQL@, "starts_with("@, 1),
        says(FIND_PROJECT_ID_BY_CWD_SQL@, "ORDER BY LENGTH(p.path) DESC"@),
        says(FIND_PROJECT_ID_BY_CWD_SQL@, "FROM projects"@),
{
    reveal_strlit(
        "SELECT p.id
         FROM projects p
         WHERE $1 = p.path
            OR starts_with($1, CASE
                 WHEN right(p.path, 1) = '/' THEN p.path
                 ELSE p.path || '/'
               END)
         ORDER BY LENGTH(p.path) DESC
         LIMIT 1",
    );
    reveal_strlit("FROM projects");
    reveal_strlit("ORDER BY LENGTH(p.path) DESC");
    reveal_strlit("SELECT");
    reveal_strlit("starts_with(");
    let t = FIND_PROJECT_ID_BY_CWD_SQL@;
    assert(part_at(t, 0, "SELECT"@));
    assert(part_at(t, 79, "starts_with("@));
    assert(part_at(t, 222, "ORDER BY LENGTH(p.path) DESC"@));
    assert(part_at(t, 21, "FROM projects"@));
}

/// What the text of [`CLEANUP_ORPHANED_PROJECTS_SQL`] says.
pub proof fn cleanup_orphaned_projects_text()
    ensures
        opens(CLEANUP_ORPHANED_PROJECTS_SQL@, "DELETE FROM projects"@),
{
    reveal_strlit(
        "DELETE FROM projects p
         WHERE NOT EXISTS (SELECT 1 FROM indexed_files f WHERE f.project_id = p.id)",
    );
    reveal_strlit("DELETE FROM projects");
    let t = CLEANUP_ORPHANED_PROJECTS_SQL@;
    assert(part_at(t, 0, "DELETE FROM projects"@));
}

} // verus!
