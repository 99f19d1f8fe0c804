//! Projects: registration, look-up by directory, and the projects that stand
//! for their worktrees.
use vstd::prelude::*;

use crate::cwd_cache::CwdProjectCache;
use crate::meaning::{fills, opens, says, takes};
use crate::pool::{heavy, HeavyView, HeavyWork};
use crate::queries::texts::projects::{
    cleanup_orphaned_projects_text, delete_projects_by_workspace_text, find_project_by_cwd_text,
    find_project_id_by_cwd_text, get_git_enabled_projects_text, language_summary_text,
    list_languages_text, list_project_names_text, list_projects_text,
    select_main_worktree_projects_text, update_project_scanned_text,
    update_projects_scanned_by_workspace_text, upsert_project_text,
};
use crate::statement::{
    executes, fetches_all, fetches_one, fetches_optional, opt_str, BindView, Statement,
};

verus! {

/// How many files of a language a project has.
#[derive(Debug, Clone)]
pub struct LanguageCount {
    pub language: String,
    pub count: i64,
}

pub const UPSERT_PROJECT_SQL: &'static str = "INSERT INTO projects (workspace_path, path, name, git_common_dir, git_root_commits, last_scanned_at)
         VALUES ($1, $2, $3, $4, $5, NOW())
         ON CONFLICT (path) DO UPDATE SET
            workspace_path = EXCLUDED.workspace_path,
            name = EXCLUDED.name,
            git_common_dir = EXCLUDED.git_common_dir,
            git_root_commits = EXCLUDED.git_root_commits,
            last_scanned_at = NOW()
         RETURNING id";

/// Creates a project, or brings its data up to date where its path is known,
/// and marks it as scanned now.
pub fn upsert_project(
    workspace_path: &str,
    path: &str,
    name: &str,
    git_common_dir: Option<&str>,
    git_root_commits: Option<&str>,
) -> (st: Statement)
    ensures
        st@ == fetches_one(
            UPSERT_PROJECT_SQL@,
            seq![
                BindView::Text(workspace_path@),
                BindView::Text(path@),
                BindView::Text(name@),
                BindView::OptText(opt_str(git_common_dir)),
                BindView::OptText(opt_str(git_root_commits)),
            ],
        ),
        opens(st@.sql, "INSERT INTO projects"@),
        fills(
            st@,
            "INSERT INTO projects"@,
            "workspace_path"@,
            "VALUES ("@,
            BindView::Text(workspace_path@),
        ),
        fills(st@, "INSERT INTO projects"@, "path"@, "VALUES ("@, BindView::Text(path@)),
        fills(st@, "INSERT INTO projects"@, "name"@, "VALUES ("@, BindView::Text(name@)),
        fills(
            st@,
            "INSERT INTO projects"@,
            "git_common_dir"@,
            "VALUES ("@,
            BindView::OptText(opt_str(git_common_dir)),
        ),
        fills(
            st@,
            "INSERT INTO projects"@,
            "git_root_commits"@,
            "VALUES ("@,
            BindView::OptText(opt_str(git_root_commits)),
        ),
        says(st@.sql, "ON CONFLICT (path) DO UPDATE SET"@),
{
    proof {
        upsert_project_text();
    }
    let st = Statement::one(UPSERT_PROJECT_SQL)
        .text(workspace_path)
        .text(path)
        .text(name)
        .opt_text(git_common_dir)
        .opt_text(git_root_commits);
    assert(st@.sql == UPSERT_PROJECT_SQL@);
    st
}

pub const LIST_PROJECTS_SQL: &'static str = "SELECT p.id, p.workspace_path, p.path, p.name,
                p.git_common_dir, p.git_root_commits,
                p.discovered_at, p.last_scanned_at,
                COUNT(f.id) as file_count
         FROM projects p
         LEFT JOIN indexed_files f ON f.project_id = p.id
         GROUP BY p.id
         ORDER BY p.name";

/// All projects with their number of files.
pub fn list_projects() -> (st: Statement)
    ensures
        st@ == fetches_all(LIST_PROJECTS_SQL@, seq![]),
        opens(st@.sql, "SELECT"@),
        says(st@.sql, "GROUP BY p.id"@),
        says(st@.sql, "ORDER BY p.name"@),
        says(st@.sql, "FROM projects"@),
{
    proof {
        list_projects_text();
    }
    let st = Statement::all(LIST_PROJECTS_SQL);
    assert(st@.sql == LIST_PROJECTS_SQL@);
    st
}

pub const FIND_PROJECT_ID_BY_CWD_SQL: &'static str = "SELECT p.id
         FROM projects p
         WHERE $1 = p.path
            OR starts_with($1, CASE
                 WHEN right(p.path, 1) = '/' THEN p.path
                 ELSE p.path || '/'
               END)
         ORDER BY LENGTH(p.path) DESC
         LIMIT 1";

/// How the project of a directory is found.
#[derive(Debug)]
pub enum CwdLookup {
    /// It is known, or known not to exist.
    Known(Option<i32>),
    /// The database has to be asked.
    Ask(Statement),
}

/// The id of the project whose path is the longest prefix of a directory:
/// from the cache where it holds a recent result, else from the database.
pub fn find_project_id_by_cwd(cache: &CwdProjectCache, cwd: &str, now: u64) -> (r: CwdLookup)
    ensures
        match cache@.answer(cwd@, now) {
            Some(id) => r == CwdLookup::Known(id),
            None => r matches CwdLookup::Ask(st) && st@ == fetches_optional(
                FIND_PROJECT_ID_BY_CWD_SQL@,
                seq![BindView::Text(cwd@)],
            ),
        },
        r matches CwdLookup::Ask(st) ==> opens(st@.sql, "SELECT"@),
        r matches CwdLookup::Ask(st) ==> takes(st@, "starts_with("@, BindView::Text(cwd@)),
        r matches CwdLookup::Ask(st) ==> says(st@.sql, "ORDER BY LENGTH(p.path) DESC"@),
        r matches CwdLookup::Ask(st) ==> says(st@.sql, "FROM projects"@),
{
    match cache.lookup(cwd, now) {
        Some(id) => CwdLookup::Known(id),
        None => {
            let st = Statement::optional(FIND_PROJECT_ID_BY_CWD_SQL).text(cwd);
            proof {
                find_project_id_by_cwd_text();
                assert(st@.sql == FIND_PROJECT_ID_BY_CWD_SQL@);
            }
            CwdLookup::Ask(st)
        },
    }
}

/// Takes the database's answer for a directory: it is the result, and the
/// cache learns it.
pub fn found_project_id(
    cache: &mut CwdProjectCache,
    cwd: &str,
    row: Option<i32>,
    now: u64,
) -> (r: Option<i32>)
    requires
        old(cache)@.wf(),
    ensures
        r == row,
        final(cache)@ == old(cache)@.stored(cwd@, row, now),
        final(cache)@.wf(),
{
    cache.store(cwd, row, now);
    row
}

pub const FIND_PROJECT_BY_CWD_SQL: &'static str = "SELECT p.id, p.workspace_path, p.path, p.name,
                p.git_common_dir, p.git_root_commits,
                p.discovered_at, p.last_scanned_at,
                (SELECT COUNT(*) FROM indexed_files f WHERE f.project_id = p.id) AS file_count
         FROM projects p
         WHERE $1 = p.path
            OR starts_with($1, CASE
                 WHEN right(p.path, 1) = '/' THEN p.path
                 ELSE p.path || '/'
               END)
         ORDER BY LENGTH(p.path) DESC
         LIMIT 1";

/// The project whose path is the longest prefix of a directory, with its number
/// of files.
pub fn find_project_by_cwd(cwd: &str) -> (st: Statement)
    ensures
        st@ == fetches_optional(FIND_PROJECT_BY_CWD_SQL@, seq![BindView::Text(cwd@)]),
        opens(st@.sql, "SELECT"@),
        takes(st@, "starts_with("@, BindView::Text(cwd@)),
        says(st@.sql, "ORDER BY LENGTH(p.path) DESC"@),
        says(st@.sql, "FROM indexed_files"@),
{
    proof {
        find_project_by_cwd_text();
    }
    let st = Statement::optional(FIND_PROJECT_BY_CWD_SQL).text(cwd);
    assert(st@.sql == FIND_PROJECT_BY_CWD_SQL@);
    st
}

pub const SELECT_MAIN_WORKTREE_PROJECTS_SQL: &'static str =
    "SELECT id, path, git_common_dir, git_root_commits FROM projects";

/// The data from which the main project of each group of worktrees is picked.
pub fn select_main_worktree_projects() -> (st: Statement)
    ensures
        st@ == fetches_all(SELECT_MAIN_WORKTREE_PROJECTS_SQL@, seq![]),
        opens(st@.sql, "SELECT"@),
        says(st@.sql, "FROM projects"@),
{
    proof {
        select_main_worktree_projects_text();
    }
    let st = Statement::all(SELECT_MAIN_WORKTREE_PROJECTS_SQL);
    assert(st@.sql == SELECT_MAIN_WORKTREE_PROJECTS_SQL@);
    st
}

pub const LANGUAGE_SUMMARY_SQL: &'static str = "SELECT f.language, COUNT(*) as count
         FROM indexed_files f
         JOIN projects p ON f.project_id = p.id
         WHERE p.name = $1
         GROUP BY f.language
         ORDER BY count DESC";

/// The languages of a project, the most frequent first.
pub fn language_summary(project_name: &str) -> (st: Statement)
    ensures
        st@ == fetches_all(LANGUAGE_SUMMARY_SQL@, seq![BindView::Text(project_name@)]),
        opens(st@.sql, "SELECT"@),
        takes(st@, "p.name = "@, BindView::Text(project_name@)),
        says(st@.sql, "GROUP BY f.language"@),
        says(st@.sql, "ORDER BY count DESC"@),
        says(st@.sql, "FROM indexed_files"@),
{
    proof {
        language_summary_text();
    }
    let st = Statement::all(LANGUAGE_SUMMARY_SQL).text(project_name);
    assert(st@.sql == LANGUAGE_SUMMARY_SQL@);
    st
}

pub const UPDATE_PROJECT_SCANNED_SQL: &'static str =
    "UPDATE projects SET last_scanned_at = NOW() WHERE id = $1";

/// Marks a project as scanned now.
pub fn update_project_scanned(project_id: i32) -> (st: Statement)
    ensures
        st@ == executes(UPDATE_PROJECT_SCANNED_SQL@, seq![BindView::Int(project_id)]),
        opens(st@.sql, "UPDATE projects"@),
        takes(st@, "NOW() WHERE id = "@, BindView::Int(project_id)),
{
    proof {
        update_project_scanned_text();
    }
    let st = Statement::execute(UPDATE_PROJECT_SCANNED_SQL).int4(project_id);
    assert(st@.sql == UPDATE_PROJECT_SCANNED_SQL@);
    st
}

pub const UPDATE_PROJECTS_SCANNED_BY_WORKSPACE_SQL: &'static str =
    "UPDATE projects SET last_scanned_at = NOW() WHERE workspace_path = $1";

/// Marks all projects of a workspace as scanned now.
pub fn update_projects_scanned_by_workspace(workspace_path: &str) -> (st: Statement)
    ensures
        st@ == executes(
            UPDATE_PROJECTS_SCANNED_BY_WORKSPACE_SQL@,
            seq![BindView::Text(workspace_path@)],
        ),
        opens(st@.sql, "UPDATE projects"@),
        takes(st@, "workspace_path = "@, BindView::Text(workspace_path@)),
{
    proof {
        update_projects_scanned_by_workspace_text();
    }
    let st = Statement::execute(UPDATE_PROJECTS_SCANNED_BY_WORKSPACE_SQL).text(workspace_path);
    assert(st@.sql == UPDATE_PROJECTS_SCANNED_BY_WORKSPACE_SQL@);
    st
}

pub const LIST_PROJECT_NAMES_SQL: &'static str = "SELECT DISTINCT name FROM projects ORDER BY name";

/// The names of all projects.
pub fn list_project_names() -> (st: Statement)
    ensures
        st@ == fetches_all(LIST_PROJECT_NAMES_SQL@, seq![]),
        opens(st@.sql, "SELECT DISTINCT"@),
        says(st@.sql, "ORDER BY name"@),
        says(st@.sql, "FROM projects"@),
{
    proof {
        list_project_names_text();
    }
    let st = Statement::all(LIST_PROJECT_NAMES_SQL);
    assert(st@.sql == LIST_PROJECT_NAMES_SQL@);
    st
}

pub const LIST_LANGUAGES_SQL: &'static str =
    "SELECT DISTINCT language FROM indexed_files ORDER BY language";

/// All languages of indexed files.
pub fn list_languages() -> (st: Statement)
    ensures
        st@ == fetches_all(LIST_LANGUAGES_SQL@, seq![]),
        opens(st@.sql, "SELECT DISTINCT"@),
        says(st@.sql, "ORDER BY language"@),
        says(st@.sql, "FROM indexed_files"@),
{
    proof {
        list_languages_text();
    }
    let st = Statement::all(LIST_LANGUAGES_SQL);
    assert(st@.sql == LIST_LANGUAGES_SQL@);
    st
}

pub const GET_GIT_ENABLED_PROJECTS_SQL: &'static str =
    "SELECT id, path FROM projects ORDER BY name";

/// Ids and paths of the projects whose git history is indexed.
pub fn get_git_enabled_projects() -> (st: Statement)
    ensures
        st@ == fetches_all(GET_GIT_ENABLED_PROJECTS_SQL@, seq![]),
        opens(st@.sql, "SELECT"@),
        says(st@.sql, "ORDER BY name"@),
        says(st@.sql, "FROM projects"@),
{
    proof {
        get_git_enabled_projects_text();
    }
    let st = Statement::all(GET_GIT_ENABLED_PROJECTS_SQL);
    assert(st@.sql == GET_GIT_ENABLED_PROJECTS_SQL@);
    st
}

pub const DELETE_PROJECTS_BY_WORKSPACE_SQL: &'static str =
    "DELETE FROM projects WHERE workspace_path = $1";

/// Deletes all projects of a workspace.
pub fn delete_projects_by_workspace(workspace_path: &str) -> (st: Statement)
    ensures
        st@ == executes(DELETE_PROJECTS_BY_WORKSPACE_SQL@, seq![BindView::Text(workspace_path@)]),
        opens(st@.sql, "DELETE FROM projects"@),
        takes(st@, "workspace_path = "@, BindView::Text(workspace_path@)),
{
    proof {
        delete_projects_by_workspace_text();
    }
    let st = Statement::execute(DELETE_PROJECTS_BY_WORKSPACE_SQL).text(workspace_path);
    assert(st@.sql == DELETE_PROJECTS_BY_WORKSPACE_SQL@);
    st
}

pub const CLEANUP_ORPHANED_PROJECTS_SQL: &'static str = "DELETE FROM projects p
         WHERE NOT EXISTS (SELECT 1 FROM indexed_files f WHERE f.project_id = p.id)";

/// Deletes the projects without an indexed file, without a limit on time.
pub fn cleanup_orphaned_projects() -> (r: HeavyWork)
    ensures
        r@ == (HeavyView {
            statement_timeout: "0"@,
            job_tag: "stale-cleanup"@,
            statement: executes(CLEANUP_ORPHANED_PROJECTS_SQL@, seq![]),
        }),
        opens(r@.statement.sql, "DELETE FROM projects"@),
{
    let st = Statement::execute(CLEANUP_ORPHANED_PROJECTS_SQL);
    proof {
        cleanup_orphaned_projects_text();
        assert(st@.sql == CLEANUP_ORPHANED_PROJECTS_SQL@);
    }
    heavy("0", "stale-cleanup", st)
}

} // verus!
