//! Projects: the main one of each group of worktrees, what a checkout is
//! named, and which project a directory belongs to.
use pgmcp_db::cwd_cache::{set_cwd_project_cache_ttl_secs, CwdProjectCache};
use pgmcp_db::queries::projects::{
    find_project_by_cwd, find_project_id_by_cwd, found_project_id, CwdLookup,
};
use pgmcp_db::statement::{Bind, Fetch};
use pgmcp_db::unix_path::project_main_path_name;
use pgmcp_db::worktrees::{directory_name, pick_main_worktree_ids, worktree_basename_rank};

const SECOND: u64 = 1_000_000_000;

fn row(
    id: i32,
    path: &str,
    common_dir: Option<&str>,
    root_commits: Option<&str>,
) -> (i32, String, Option<String>, Option<String>) {
    (
        id,
        path.to_string(),
        common_dir.map(str::to_string),
        root_commits.map(str::to_string),
    )
}

#[test]
fn singleton_project_is_always_main() {
    let rows = vec![row(1, "/ws/foo", None, None)];
    assert_eq!(pick_main_worktree_ids(&rows), vec![1]);
}

#[test]
fn worktree_group_sharing_git_common_dir_picks_shortest_basename() {
    let rows = vec![
        row(10, "/ws/f1r3node-reified-rspaces", Some("/ws/f1r3node/.git"), None),
        row(11, "/ws/f1r3node", Some("/ws/f1r3node/.git"), None),
        row(12, "/ws/f1r3node-cost-accounted-rho-calc", Some("/ws/f1r3node/.git"), None),
    ];
    assert_eq!(pick_main_worktree_ids(&rows), vec![11]);
}

#[test]
fn worktree_group_sharing_root_commits_when_common_dir_is_null() {
    let rows = vec![
        row(20, "/ws/MeTTa-Compiler-JIT", None, Some("abc123")),
        row(21, "/ws/MeTTa-Compiler", None, Some("abc123")),
        row(22, "/ws/MeTTa-Compiler-PR-63", None, Some("abc123")),
    ];
    assert_eq!(pick_main_worktree_ids(&rows), vec![21]);
}

#[test]
fn projects_with_both_keys_null_each_become_their_own_group() {
    let rows = vec![row(30, "/ws/alpha", None, None), row(31, "/ws/beta", None, None)];
    let mut got = pick_main_worktree_ids(&rows);
    got.sort();
    assert_eq!(got, vec![30, 31]);
}

#[test]
fn lexicographic_tiebreak_when_basenames_equal_length() {
    let rows = vec![
        row(40, "/ws/delta", Some("/shared/.git"), None),
        row(41, "/ws/alpha", Some("/shared/.git"), None),
    ];
    assert_eq!(pick_main_worktree_ids(&rows), vec![41]);
}

#[test]
fn id_tiebreak_when_basename_identical() {
    let rows = vec![
        row(50, "/ws-a/dup", Some("/shared/.git"), None),
        row(49, "/ws-b/dup", Some("/shared/.git"), None),
    ];
    assert_eq!(pick_main_worktree_ids(&rows), vec![49]);
}

#[test]
fn singletons_and_groups_combine_in_one_call() {
    let rows = vec![
        row(100, "/ws/rust", Some("/a/.git"), None),
        row(101, "/ws/rust-feature-x", Some("/a/.git"), None),
        row(200, "/ws/lonely", None, None),
        row(300, "/ws/py-experimental", None, Some("xyz")),
        row(301, "/ws/py", None, Some("xyz")),
    ];
    assert_eq!(pick_main_worktree_ids(&rows), vec![100, 200, 301]);
}

#[test]
fn trailing_slash_in_path_does_not_break_basename() {
    let rows = vec![row(60, "/ws/foo/", Some("/a/.git"), None)];
    assert_eq!(pick_main_worktree_ids(&rows), vec![60]);
}

#[test]
fn empty_input_returns_empty() {
    let rows: Vec<(i32, String, Option<String>, Option<String>)> = Vec::new();
    assert!(pick_main_worktree_ids(&rows).is_empty());
}

#[test]
fn common_directory_wins_over_root_commits() {
    let rows = vec![
        row(2, "/ws/ab", Some("/x/.git"), Some("root")),
        row(1, "/ws/a", Some("/y/.git"), Some("root")),
    ];
    assert_eq!(pick_main_worktree_ids(&rows), vec![1, 2]);
}

#[test]
fn basenames_rank_by_length_and_then_by_text() {
    assert_eq!(directory_name("/ws/foo/"), "foo");
    assert_eq!(directory_name("foo"), "foo");
    assert_eq!(worktree_basename_rank("\u{e9}a"), (3, "\u{e9}a"));
    assert!(worktree_basename_rank("b") < worktree_basename_rank("aa"));
}

#[test]
fn git_file_worktree_projects_onto_its_main_checkout() {
    let (path, name) =
        project_main_path_name("/ws/f1r3node-reified-rspaces", Some("/ws/f1r3node/.git"));
    assert_eq!(path, "/ws/f1r3node");
    assert_eq!(name, "f1r3node");
}

#[test]
fn git_dir_fork_projects_onto_itself() {
    let (path, name) =
        project_main_path_name("/ws/MeTTa-Compiler-fork", Some("/ws/MeTTa-Compiler-fork/.git"));
    assert_eq!(path, "/ws/MeTTa-Compiler-fork");
    assert_eq!(name, "MeTTa-Compiler-fork");
}

#[test]
fn main_checkout_projects_onto_itself() {
    let (path, name) = project_main_path_name("/ws/f1r3node", Some("/ws/f1r3node/.git"));
    assert_eq!(path, "/ws/f1r3node");
    assert_eq!(name, "f1r3node");
}

#[test]
fn non_git_dir_keeps_its_own_identity() {
    let (path, name) = project_main_path_name("/ws/loose-notes", None);
    assert_eq!(path, "/ws/loose-notes");
    assert_eq!(name, "loose-notes");
}

#[test]
fn non_dotgit_common_dir_falls_back_to_own_path() {
    let (path, name) = project_main_path_name("/ws/checkout", Some("/ws/bare-repo.git"));
    assert_eq!(path, "/ws/checkout");
    assert_eq!(name, "checkout");
}

#[test]
fn root_and_dots_have_no_name() {
    assert_eq!(project_main_path_name("/", None), ("/".to_string(), "/".to_string()));
    assert_eq!(project_main_path_name("/ws/..", None), ("/ws/..".to_string(), "/ws/..".to_string()));
    assert_eq!(project_main_path_name("/ws/a//", None), ("/ws/a//".to_string(), "a".to_string()));
    assert_eq!(
        project_main_path_name("/ws/a", Some("/ws/b//.git/")),
        ("/ws/b".to_string(), "b".to_string())
    );
}

#[test]
fn directories_are_asked_once_while_the_answer_is_fresh() {
    let mut cache = CwdProjectCache::new();
    match find_project_id_by_cwd(&cache, "/ws/a", 0) {
        CwdLookup::Ask(st) => {
            assert!(matches!(st.fetch, Fetch::Optional));
            assert!(matches!(&st.binds[0], Bind::Text(s) if s == "/ws/a"));
        }
        other => panic!("{other:?}"),
    }
    assert_eq!(found_project_id(&mut cache, "/ws/a", Some(7), 0), Some(7));
    assert_eq!(found_project_id(&mut cache, "/ws/none", None, 0), None);
    assert!(matches!(
        find_project_id_by_cwd(&cache, "/ws/a", 29 * SECOND),
        CwdLookup::Known(Some(7))
    ));
    assert!(matches!(
        find_project_id_by_cwd(&cache, "/ws/none", 29 * SECOND),
        CwdLookup::Known(None)
    ));
    assert!(matches!(find_project_id_by_cwd(&cache, "/ws/a", 30 * SECOND), CwdLookup::Ask(_)));
    assert!(matches!(find_project_id_by_cwd(&cache, "/ws/b", SECOND), CwdLookup::Ask(_)));
}

#[test]
fn zero_seconds_turn_the_directory_cache_off() {
    let mut cache = CwdProjectCache::new();
    set_cwd_project_cache_ttl_secs(&mut cache, 0);
    cache.store("/ws/a", Some(7), 0);
    assert_eq!(cache.lookup("/ws/a", 0), None);
    set_cwd_project_cache_ttl_secs(&mut cache, 60);
    cache.store("/ws/a", Some(7), 0);
    assert_eq!(cache.lookup("/ws/a", 59 * SECOND), Some(Some(7)));
    assert_eq!(cache.lookup("/ws/a", 60 * SECOND), None);
}

#[test]
fn full_directory_cache_starts_over() {
    let mut cache = CwdProjectCache::new();
    for i in 0..4096 {
        cache.store(format!("/ws/{i}").as_str(), Some(i), 0);
    }
    assert_eq!(cache.lookup("/ws/0", 1), Some(Some(0)));
    cache.store("/ws/last", Some(1), 1);
    assert_eq!(cache.lookup("/ws/0", 1), None);
    assert_eq!(cache.lookup("/ws/last", 1), Some(Some(1)));
}

#[test]
fn sharing_the_git_directory_is_enough() {
    let rows = vec![
        row(1, "/ws/app", Some("/g/.git"), Some("r1")),
        row(2, "/ws/app-x", Some("/g/.git"), None),
        row(3, "/ws/app-yz", Some("/g/.git"), Some("r2")),
    ];
    assert_eq!(pick_main_worktree_ids(&rows), vec![1]);
    let rows = vec![
        row(1, "/ws/app", Some("/g/.git"), Some("r1")),
        row(2, "/ws/app-x", None, Some("r1")),
    ];
    assert_eq!(pick_main_worktree_ids(&rows), vec![1, 2]);
}

#[test]
fn directories_are_found_by_literal_prefixes() {
    let st = find_project_by_cwd("/ws/my-app/x");
    assert!(st.sql.contains("starts_with($1, CASE"));
    assert!(!st.sql.contains("LIKE"));
}
